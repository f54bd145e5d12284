use vstd::prelude::*;

verus! {

/// Largest number of validator keys a registry can hold.
pub const MAX_VALIDATORS: usize = 10;

/// Base units per whole token (nine decimal places).
pub const BASE_UNITS_PER_TOKEN: u64 = 1_000_000_000;

} // verus!
