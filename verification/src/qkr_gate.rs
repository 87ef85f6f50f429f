use vstd::prelude::*;
use crate::error::CoreError;
use crate::types::GateDecision;

verus! {

/// Policy boundary of the core: one pure query per sensitive operation.
///
/// The core stays agnostic of the authority behind it; the host wires the real
/// policy in. Sensitive operations are always gated with an operation name and
/// an operation context, and nothing is assumed of the decision or of the
/// error an implementation may return.
pub trait QkrGate {
    fn gate(&self, op_name: &str, op_context: &[u8]) -> Result<GateDecision, CoreError>;
}

/// Minimal in-memory gate for offline use: allows every operation.
pub struct AllowAllGate;

impl QkrGate for AllowAllGate {
    fn gate(&self, op_name: &str, _op_context: &[u8]) -> (r: Result<GateDecision, CoreError>)
        ensures
            r is Ok && r->Ok_0.allowed,
    {
        Ok(
            GateDecision {
                allowed: true,
                reason_codes: Vec::new(),
                human: op_name.to_owned(),
            },
        )
    }
}

/// Enforces a gate decision uniformly: an allowed decision passes, a denied
/// one becomes `GateBlocked` carrying the decision's human string unchanged.
pub fn require_allowed(dec: &GateDecision) -> (r: Result<(), CoreError>)
    ensures
        dec.allowed <==> r is Ok,
        !dec.allowed ==> r == Err::<(), CoreError>(CoreError::GateBlocked(dec.human)),
{
    if dec.allowed {
        Ok(())
    } else {
        Err(CoreError::GateBlocked(dec.human.clone()))
    }
}

} // verus!
