//! Plans one compute dispatch over a GPU: the setup decisions that guard device
//! acquisition, the buffers and their sizes, the binding layout and bind group,
//! the workgroup grid and the commands to record. The device calls themselves
//! are made by the program around this library, from the values it returns.
use vstd::prelude::*;

pub mod buffers;
pub mod dispatch;
pub mod layout;
pub mod setup;

verus! {

} // verus!
