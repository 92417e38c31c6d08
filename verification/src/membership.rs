//! Membership registration: the plan by which one ingestion process
//! registers itself in the coordination ensemble. The process ensures
//! a well-known persistent root exists (best effort, no retry if
//! another process races the same create) and then registers an
//! ephemeral child keyed by a random identifier; the ensemble removes
//! the child automatically on disconnect. Leader election and work
//! sharding over these registrations are extension points, not part of
//! this plan.

use vstd::prelude::*;
use vstd::string::StringExecFns;
use rand::Rng;
use crate::text::{dec_chars, string_from_chars, u64_to_dec};

verus! {

/// The well-known persistent root path under which every process
/// registers.
pub fn root_path() -> (r: String)
    ensures
        r@ == "/kactusworkers"@,
{
    "/kactusworkers".to_owned()
}

/// The ephemeral node path of the process with identifier `uid`: the
/// root, a separator, and the identifier in base ten.
pub open spec fn node_path_spec(uid: u64) -> Seq<char> {
    "/kactusworkers/"@ + dec_chars(uid as nat)
}

/// Builds the ephemeral node path of one process identifier.
pub fn node_path(uid: u64) -> (r: String)
    ensures
        r@ == node_path_spec(uid),
{
    let digits = u64_to_dec(uid);
    let tail = string_from_chars(&digits);
    let mut r: String = "/kactusworkers/".to_owned();
    r.append(tail.as_str());
    r
}

/// Relies on rand's `Rng::gen::<u64>`: a process-local random
/// identifier. Nothing is promised of its value.
#[verifier::external_body]
fn random_worker_uid() -> u64 {
    rand::thread_rng().gen()
}

/// What the coordinator asks of the ensemble on startup, in order:
/// create the persistent root first if the existence check found none,
/// then create the ephemeral child at `ephemeral_path`.
pub struct RegistrationPlan {
    pub create_root: bool,
    pub uid: u64,
    pub ephemeral_path: String,
}

/// The registration plan for a process identifier, given whether the
/// existence check found the persistent root.
pub fn registration_plan(root_exists: bool, uid: u64) -> (r: RegistrationPlan)
    ensures
        r.create_root == !root_exists,
        r.uid == uid,
        r.ephemeral_path@ == node_path_spec(uid),
{
    RegistrationPlan { create_root: !root_exists, uid, ephemeral_path: node_path(uid) }
}

/// Draws a fresh random identifier for this process and plans its
/// registration. Whatever identifier was drawn, the plan creates the
/// root exactly when the existence check found none, and registers
/// under that identifier's node path.
pub fn register_self(root_exists: bool) -> (r: RegistrationPlan)
    ensures
        r.create_root == !root_exists,
        r.ephemeral_path@ == node_path_spec(r.uid),
{
    let uid = random_worker_uid();
    registration_plan(root_exists, uid)
}

} // verus!
