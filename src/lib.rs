use vstd::prelude::*;

pub mod errors;
pub mod states;
pub mod ledger;
pub mod registry;
pub mod laws;

verus! {

} // verus!
