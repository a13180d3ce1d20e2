//! The two identities the embedded pair is created with.
//!
//! Both are fixed literals: a server name together with one opaque integer
//! setting, and a client name. The setting has no meaning to this library;
//! it is carried through to the server unchanged.

use vstd::prelude::*;

verus! {

/// The name the embedded server is created with.
pub open spec fn embedded_server_name() -> Seq<char> {
    "Icy Server"@
}

/// The opaque configuration value the embedded server is created with.
/// This library gives it no meaning; it is passed through verbatim.
pub open spec fn embedded_server_setting() -> u32 {
    0u32
}

/// The name the client is created with.
pub open spec fn embedded_client_name() -> Seq<char> {
    "Icy Client"@
}

/// Identity of the in-process server: a human-readable name and one opaque
/// integer setting, both fixed before the connection attempt and never
/// changed afterwards.
#[derive(Debug)]
pub struct ServerIdentity {
    pub name: String,
    pub setting: u32,
}

/// Identity of the client: a human-readable name, fixed before the
/// connection attempt and never changed afterwards.
#[derive(Debug)]
pub struct ClientIdentity {
    pub name: String,
}

impl ServerIdentity {
    /// The fixed identity of the embedded server.
    pub fn embedded() -> (r: ServerIdentity)
        ensures
            r.name@ == embedded_server_name(),
            r.setting == embedded_server_setting(),
    {
        ServerIdentity { name: String::from_str("Icy Server"), setting: 0 }
    }
}

impl ClientIdentity {
    /// The fixed identity of the client.
    pub fn embedded() -> (r: ClientIdentity)
        ensures
            r.name@ == embedded_client_name(),
    {
        ClientIdentity { name: String::from_str("Icy Client") }
    }
}

} // verus!
