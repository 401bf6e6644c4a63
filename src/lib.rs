use vstd::prelude::*;

pub mod command;
pub mod dispatch;
pub mod session;
pub mod text;

verus! {

} // verus!
