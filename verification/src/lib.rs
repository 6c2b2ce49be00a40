//! The logic of the BorkCraft client: nether portal records and their
//! editable text form, the window and session state machines, the request
//! outcome handling and the image deletion queue.
use vstd::prelude::*;

pub mod text;
pub mod portals;
pub mod keyed;
pub mod pages;
pub mod errors;
pub mod images;
pub mod windows;
pub mod sessions;
pub mod requests;
pub mod login;
pub mod modal_machines;
pub mod startup;
pub mod laws;

verus! {
} // verus!
