//! The opening decision of a periodic tick: nothing to do, a configuration
//! gap, or an ordered list of rows to deliver with the credential to use.

use vstd::prelude::*;
use crate::delivery::{CredentialError, credential_check, access_token};
use crate::order::{is_time_order, order_by_time};

verus! {

/// How a tick starts.
#[derive(Debug)]
pub enum TickStart {
    /// No row is selected: nothing is sent and the credential is not read.
    Idle,
    /// Rows are selected but the credential cannot be used: the whole tick is
    /// skipped and reported once.
    Unconfigured(CredentialError),
    /// Deliver the rows at these positions, in this order, with this credential.
    Ready { token: String, order: Vec<usize> },
}

pub open spec fn some_selected(keys: Seq<Option<i64>>) -> bool {
    exists|j: int| 0 <= j < keys.len() && (#[trigger] keys[j]) is Some
}

/// The start of a tick over rows whose selection and instants are `keys`,
/// with the credential's configuration entry `setting`.
pub open spec fn is_tick_start(keys: Seq<Option<i64>>, setting: Option<String>, r: TickStart) -> bool {
    match r {
        TickStart::Idle => !some_selected(keys),
        TickStart::Unconfigured(e) => some_selected(keys) && credential_check(setting) == Err::<
            String,
            CredentialError,
        >(e),
        TickStart::Ready { token, order } => some_selected(keys) && credential_check(setting)
            == Ok::<String, CredentialError>(token) && is_time_order(keys, order@),
    }
}

/// Decides how a tick over the selected rows starts.
pub fn start_tick(keys: &Vec<Option<i64>>, setting: Option<String>) -> (r: TickStart)
    ensures
        is_tick_start(keys@, setting, r),
{
    let order = order_by_time(keys);
    if order.len() == 0 {
        proof {
            if some_selected(keys@) {
                let j = choose|j: int| 0 <= j < keys@.len() && (#[trigger] keys@[j]) is Some;
                assert(order@.contains(j as usize));
            }
        }
        return TickStart::Idle;
    }
    proof {
        assert(keys@[order@[0] as int] is Some);
    }
    match access_token(setting) {
        Err(e) => TickStart::Unconfigured(e),
        Ok(token) => TickStart::Ready { token, order },
    }
}

} // verus!
