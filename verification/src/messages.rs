use vstd::prelude::*;

verus! {

/// Reply for operations whose only result is whether they took effect.
#[derive(Debug)]
pub struct SuccessMessage {
    pub success: bool,
}

impl SuccessMessage {
    pub fn new(success: bool) -> (r: Self)
        ensures
            r.success == success,
    {
        SuccessMessage { success }
    }
}

} // verus!
