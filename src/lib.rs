//! A small overlay controller: a title banner and two columns of status rows,
//! rebuilt from two lists of strings on a fixed repeating interval.
use vstd::prelude::*;

pub mod config;
pub mod render;
pub mod timer;

verus! {

} // verus!
