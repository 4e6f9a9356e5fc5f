//! Static capability facts: informational, side-effect-free queries with no
//! bearing on the pipeline's correctness.

use vstd::prelude::*;

verus! {

/// The name of the cipher and mode this library undoes.
pub fn algorithm_name() -> (r: String)
    ensures
        r@ == "AES-256-CBC"@,
{
    "AES-256-CBC".to_owned()
}

/// The fixed version string this library reports.
pub fn version() -> (r: String)
    ensures
        r@ == "1.0.0"@,
{
    "1.0.0".to_owned()
}

} // verus!
