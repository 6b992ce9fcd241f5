//! Items placed in the catalog schema, visible whatever the search path.
use vstd::prelude::*;

verus! {

/// A text-carrying type created in the catalog schema.
pub struct MyPgCatalogType(pub String);

} // verus!
