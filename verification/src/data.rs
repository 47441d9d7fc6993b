use vstd::prelude::*;

verus! {

/// One finite chunk of tabular result data pulled from the operator
/// pipeline. The lifecycle core forwards blocks without reading their
/// contents, so only their extent is carried here.
#[derive(Debug, Clone, Copy, PartialEq, Eq, Structural)]
pub struct DataBlock {
    pub num_rows: u64,
    pub num_bytes: u64,
}

/// The statically known shape of a statement's result, fixed by the
/// planner before execution starts.
#[derive(Debug, PartialEq, Eq)]
pub struct DataSchema {
    pub fields: Vec<String>,
}

} // verus!
