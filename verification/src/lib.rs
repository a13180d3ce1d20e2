//! A small bootstrap library for an in-process ("embedded") client/server
//! pair: it fixes the two identities the pair is created with, tracks the
//! single connection attempt as a three-phase session, and turns the result
//! of that attempt into an explicit success-or-abort value.

pub mod identity;
pub mod session;
