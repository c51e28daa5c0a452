//! Authorization helpers.
use vstd::prelude::*;

use crate::error::{ContractError, ErrorClass};

verus! {

/// Who a trade is booked to: the named initiator when the sender is the
/// registered operator, the sender otherwise; naming an initiator without
/// being the operator is refused.
pub open spec fn spec_resolve_initiator(
    operator: Option<String>,
    sender: String,
    maybe_initiator: Option<String>,
) -> Result<String, ErrorClass> {
    match maybe_initiator {
        Some(candidate) => match operator {
            Some(op) => if op@ == sender@ {
                Ok(candidate)
            } else {
                Err(ErrorClass::NotAuthorized)
            },
            None => Err(ErrorClass::NotAuthorized),
        },
        None => Ok(sender),
    }
}

/// Return the initiator address if one is given AND the sender is the
/// registered operator address; the sender otherwise.
pub fn resolve_initiator(
    operator: &Option<String>,
    sender: &String,
    maybe_initiator: Option<String>,
) -> (r: Result<String, ContractError>)
    ensures
        match spec_resolve_initiator(*operator, *sender, maybe_initiator) {
            Ok(v) => r matches Ok(s) && s == v,
            Err(k) => r matches Err(e) && e.class() == k,
        },
{
    match maybe_initiator {
        Some(candidate_initiator) => {
            match operator {
                Some(operator_addr) => {
                    if operator_addr.eq(sender) {
                        Ok(candidate_initiator)
                    } else {
                        Err(ContractError::NotAuthorized {
                            msg: "only contract operator can specify initiator".to_owned(),
                        })
                    }
                },
                None => Err(ContractError::NotAuthorized {
                    msg: "only contract operator can specify initiator".to_owned(),
                }),
            }
        },
        None => Ok(sender.clone()),
    }
}

} // verus!
