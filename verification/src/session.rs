//! The bootstrap session: one connection attempt, tracked as a three-phase
//! state machine.
//!
//! A session starts unconnected, with the two embedded identities fixed. The
//! single connection attempt moves it to either the connected or the aborted
//! phase, both of which are terminal. `finish` turns the terminal phase into
//! an explicit result, so a caller — not this library — decides whether an
//! abort ends the process.

use vstd::prelude::*;

use crate::identity::ClientIdentity;
use crate::identity::ServerIdentity;
use crate::identity::embedded_client_name;
use crate::identity::embedded_server_name;
use crate::identity::embedded_server_setting;

verus! {

/// Where a session stands: before, after a successful, or after a failed
/// connection attempt.
#[derive(Clone, Copy, PartialEq, Eq, Structural, Debug)]
pub enum Phase {
    Unconnected,
    Connected,
    Aborted,
}

/// The one transition the session admits: from the unconnected phase, a
/// successful attempt connects and a failed one aborts. The two terminal
/// phases admit no transition at all.
pub open spec fn step(p: Phase, connect_ok: bool) -> Option<Phase> {
    match p {
        Phase::Unconnected => if connect_ok {
            Some(Phase::Connected)
        } else {
            Some(Phase::Aborted)
        },
        Phase::Connected => None,
        Phase::Aborted => None,
    }
}

/// The diagnostic carried by an aborted run.
pub open spec fn abort_message() -> Seq<char> {
    "embedded connection to immediately activate"@
}

/// The error an aborted run is reported with: a fixed diagnostic message.
#[derive(Debug)]
pub struct BootstrapError {
    pub message: String,
}

impl BootstrapError {
    /// The diagnostic message, for display by the caller.
    pub fn message(&self) -> (r: &str)
        ensures
            r@ == self.message@,
    {
        self.message.as_str()
    }
}

/// One bootstrap session: the two identities the embedded pair is created
/// with, and the phase the single connection attempt has reached.
#[derive(Debug)]
pub struct Session {
    pub server: ServerIdentity,
    pub client: ClientIdentity,
    pub phase: Phase,
}

impl Session {
    /// Both identities hold exactly the fixed embedded values.
    pub open spec fn uses_embedded_identities(self) -> bool {
        &&& self.server.name@ == embedded_server_name()
        &&& self.server.setting == embedded_server_setting()
        &&& self.client.name@ == embedded_client_name()
    }

    /// A fresh session: embedded identities, nothing attempted yet.
    pub fn new() -> (r: Session)
        ensures
            r.phase == Phase::Unconnected,
            r.uses_embedded_identities(),
    {
        Session {
            server: ServerIdentity::embedded(),
            client: ClientIdentity::embedded(),
            phase: Phase::Unconnected,
        }
    }

    /// Record the result of the one connection attempt: success connects,
    /// failure aborts. The identities are never touched.
    pub fn on_connect_result(&mut self, connect_ok: bool)
        requires
            old(self).phase == Phase::Unconnected,
        ensures
            Some(final(self).phase) == step(old(self).phase, connect_ok),
            final(self).phase == (if connect_ok { Phase::Connected } else { Phase::Aborted }),
            final(self).server == old(self).server,
            final(self).client == old(self).client,
    {
        if connect_ok {
            self.phase = Phase::Connected;
        } else {
            self.phase = Phase::Aborted;
        }
    }

    /// Turn a finished session into an explicit result: the connected
    /// session itself, or the fixed diagnostic. The decision to end the
    /// process on an abort stays with the caller.
    pub fn finish(self) -> (r: Result<Session, BootstrapError>)
        requires
            self.phase != Phase::Unconnected,
        ensures
            r is Ok <==> self.phase == Phase::Connected,
            r is Ok ==> r->Ok_0 == self,
            r is Err ==> r->Err_0.message@ == abort_message(),
    {
        match self.phase {
            Phase::Connected => Ok(self),
            _ => Err(BootstrapError {
                message: String::from_str("embedded connection to immediately activate"),
            }),
        }
    }
}

/// The plain text of the diagnostic an aborted run carries.
pub fn abort_message_text() -> (r: &'static str)
    ensures
        r@ == abort_message(),
{
    "embedded connection to immediately activate"
}

/// A successful connection attempt always reaches the connected phase; it
/// can never be the abort outcome.
pub proof fn lemma_success_never_aborts()
    ensures
        step(Phase::Unconnected, true) == Some(Phase::Connected),
        step(Phase::Unconnected, true) != Some(Phase::Aborted),
{
}

/// A failed connection attempt aborts the session, and an aborted session
/// is terminal: it accepts no further event, so nothing runs past the abort.
pub proof fn lemma_failure_aborts()
    ensures
        step(Phase::Unconnected, false) == Some(Phase::Aborted),
        forall|connect_ok: bool| step(Phase::Aborted, connect_ok) is None,
{
}

/// A connected session is terminal too: the session admits exactly one
/// connection attempt.
pub proof fn lemma_single_attempt()
    ensures
        forall|connect_ok: bool| step(Phase::Connected, connect_ok) is None,
{
}

/// The outcome of a run is a function of the connect result alone: two
/// sessions stepped from the unconnected phase with the same result agree
/// on the phase and on everything an observer can see of the identities.
pub proof fn lemma_outcome_deterministic(a: Session, b: Session, connect_ok: bool)
    requires
        Some(a.phase) == step(Phase::Unconnected, connect_ok),
        Some(b.phase) == step(Phase::Unconnected, connect_ok),
        a.uses_embedded_identities(),
        b.uses_embedded_identities(),
    ensures
        a.phase == b.phase,
        a.server.name@ == b.server.name@,
        a.server.setting == b.server.setting,
        a.client.name@ == b.client.name@,
{
}

} // verus!
