//! Items placed in the `public` schema.
use vstd::prelude::*;

verus! {

/// Greets from the `public` schema.
pub fn hello_public() -> (r: &'static str)
    ensures
        r@ == "Hello from the public schema"@,
{
    "Hello from the public schema"
}

} // verus!
