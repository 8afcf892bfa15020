//! Start-up logic of a desktop shell that serves its content from a local
//! web server: which command starts the server on each platform family, and
//! the launch sequence (spawn, fixed wait, hand-off to the shell) as a state
//! machine whose actions the host program performs.
use vstd::prelude::*;

pub mod command;
pub mod launcher;

verus! {

} // verus!
