//! Rules and record builders behind the Earthdawn creature manager: slugs,
//! language selection, unique codes, stat masks, creature copies and the
//! decisions taken by the web handlers.

pub mod code;
pub mod context;
pub mod handlers;
pub mod models;
pub mod schema;
pub mod stats;
pub mod text;

pub use code::generate_unique_code;
pub use context::generate_email_context;

use vstd::prelude::*;

verus! {

/// The name of the application.
pub const APP_NAME: &'static str = "Earthdawn Creatures";

} // verus!
