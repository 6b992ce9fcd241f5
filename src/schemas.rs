//! Items that an extension places in the schema chosen when it is installed.
use vstd::prelude::*;

verus! {

/// A text-carrying type created in the extension's schema.
pub struct MyType(pub String);

/// Greets from the schema where the extension was installed.
pub fn hello_default_schema() -> (r: &'static str)
    ensures
        r@ == "Hello from the schema where you installed this extension"@,
{
    "Hello from the schema where you installed this extension"
}

} // verus!
