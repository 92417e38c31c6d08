//! Credential selection for one cycle: a uniformly random pick from the
//! rotation list when one is present, the single password otherwise.

use vstd::prelude::*;
use rand::seq::SliceRandom;
use crate::agency::AgencyInfo;

verus! {

/// Why no credential could be chosen.
#[derive(PartialEq, Eq, Structural, Clone, Copy, Debug)]
pub enum CredentialError {
    /// The rotation list is present but empty, which violates the
    /// catalog invariant; selection fails fast instead of silently
    /// falling back to the single password.
    EmptyRotation,
}

/// Relies on rand's `SliceRandom::choose`: `None` exactly when the
/// slice is empty, otherwise `Some` of one uniformly random element of
/// the slice. Uniformity is a property of the randomness and is not
/// stated here; every outcome is some element of the list.
#[verifier::external_body]
fn choose_credential(list: &Vec<String>) -> (r: Option<String>)
    ensures
        (r is Some) == (list@.len() > 0),
        r matches Some(c) ==> exists|i: int| 0 <= i < list@.len() && c@ == (#[trigger] list@[i])@,
{
    list.as_slice().choose(&mut rand::thread_rng()).cloned()
}

/// The credential this cycle uses for one agency: a random entry of the
/// rotation list when a non-empty one is present, independently each
/// cycle; the single password when there is no rotation list; an error
/// when the list is present but empty.
pub fn select_credential(agency: &AgencyInfo) -> (r: Result<String, CredentialError>)
    ensures
        (r is Ok) == (agency.multiauth is None || agency.multiauth->0@.len() > 0),
        agency.multiauth is None ==> (r matches Ok(c) && c@ == agency.auth_password@),
        agency.multiauth is Some && agency.multiauth->0@.len() > 0 ==> (r matches Ok(c)
            && exists|i: int| 0 <= i < agency.multiauth->0@.len()
                && c@ == (#[trigger] agency.multiauth->0@[i])@),
        agency.wf() ==> r is Ok,
{
    match &agency.multiauth {
        Some(list) => {
            match choose_credential(list) {
                Some(c) => Ok(c),
                None => Err(CredentialError::EmptyRotation),
            }
        },
        None => Ok(agency.auth_password.clone()),
    }
}

} // verus!
