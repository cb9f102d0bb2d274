use vstd::prelude::*;

pub mod settings;
pub mod laws;
pub mod screen;
pub mod uci;

verus! {

/// The name the engine announces in its identification message.
pub const ENGINE_NAME: &'static str = "Hyōga";

/// The author the engine announces in its identification message.
pub const ENGINE_AUTHOR: &'static str = "MythicalEngineer";

} // verus!
