//! Decisions of the Wright omega evaluation, made on IEEE-754 binary64
//! encodings: the special inputs, the region of the complex plane whose
//! series gives the first estimate, the regularization near the branch cuts,
//! and whether a second refinement step is needed.
use vstd::prelude::*;

pub mod binary64;
pub mod special;
pub mod region;
pub mod refine;

verus! {

} // verus!
