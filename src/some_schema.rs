//! Items placed in the schema `some_schema`.
use vstd::prelude::*;

verus! {

/// A text-carrying type created in `some_schema`.
pub struct MySomeSchemaType(pub String);

/// Greets from `some_schema`.
pub fn hello_some_schema() -> (r: &'static str)
    ensures
        r@ == "Hello from some_schema"@,
{
    "Hello from some_schema"
}

} // verus!
