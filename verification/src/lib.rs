//! A presence-tracking service library: a line-oriented request codec,
//! a user registry with a time-based online/offline state machine, and
//! a dispatcher that maps parsed commands to registry operations.

pub mod bytes;
pub mod hashing;
pub mod laws;
pub mod request;
pub mod response;
pub mod server;
pub mod text;
pub mod userlist;

use vstd::prelude::*;

verus! {

/// Rejects a relative path: a path is accepted exactly when it starts with
/// `/`.  The error carries a message naming which path was at fault.
pub fn is_relative(name: &[u8], p: &[u8]) -> (r: Result<(), Vec<u8>>)
    ensures
        r is Ok <==> p@.len() > 0 && p@[0] == 47u8,
        r matches Err(m) ==> m@ == name@ + crate::text::spec_rel_suffix(),
{
    if p.len() > 0 && p[0] == 47u8 {
        Ok(())
    } else {
        let mut msg = crate::bytes::to_vec(name);
        crate::bytes::push_all(&mut msg, crate::text::rel_suffix().as_slice());
        Err(msg)
    }
}

} // verus!
