//! Choice of the GPU adapter at startup.
use vstd::prelude::*;
use crate::error::EngineError;

verus! {

/// The adapter flag that marks a software rasteriser.
pub const ADAPTER_FLAG_SOFTWARE: u32 = 2;

/// What startup learns of one enumerated adapter.
#[derive(Clone, Copy, Debug, PartialEq, Eq, Structural)]
pub struct AdapterInfo {
    pub flags: u32,
    /// A device of the minimum feature level can be made on it.
    pub supports_feature_level: bool,
}

/// A hardware adapter that reaches the minimum feature level.
pub open spec fn usable(a: AdapterInfo) -> bool {
    a.flags & ADAPTER_FLAG_SOFTWARE == 0 && a.supports_feature_level
}

/// The first usable adapter in enumeration order.
pub fn select_adapter(adapters: &Vec<AdapterInfo>) -> (r: Result<usize, EngineError>)
    ensures
        r matches Ok(i) ==> i < adapters@.len() && usable(adapters@[i as int])
            && forall|j: int| 0 <= j < i ==> !usable(#[trigger] adapters@[j]),
        r is Err <==> forall|j: int| 0 <= j < adapters@.len() ==> !usable(#[trigger] adapters@[j]),
        r is Err ==> r == Err::<usize, EngineError>(EngineError::NoSuitableAdapter),
{
    let mut i: usize = 0;
    while i < adapters.len()
        invariant
            i <= adapters@.len(),
            forall|j: int| 0 <= j < i ==> !usable(#[trigger] adapters@[j]),
        decreases adapters@.len() - i,
    {
        let a = adapters[i];
        if a.flags & ADAPTER_FLAG_SOFTWARE == 0 && a.supports_feature_level {
            return Ok(i);
        }
        i += 1;
    }
    Err(EngineError::NoSuitableAdapter)
}

} // verus!
