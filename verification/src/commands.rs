//! What the commands answer, from what the platform reports.
use vstd::prelude::*;

use crate::models::PermissionState;

verus! {

/// Whether notifications are allowed: yes when granted, no when denied,
/// and not known while the user has not been asked.
pub fn permission_granted(state: PermissionState) -> (r: Option<bool>)
    ensures
        r == match state {
            PermissionState::Granted => Some(true),
            PermissionState::Denied => Some(false),
            PermissionState::Prompt | PermissionState::PromptWithRationale => None::<bool>,
        },
{
    match state {
        PermissionState::Granted => Some(true),
        PermissionState::Denied => Some(false),
        PermissionState::Prompt | PermissionState::PromptWithRationale => None,
    }
}

} // verus!
