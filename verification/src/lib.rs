pub mod error;
pub mod facade;
pub mod gitconfig;
pub mod project;
pub mod repo;

use vstd::prelude::*;

verus! {

} // verus!
