//! Backend core for a tournament-management service: a typed error taxonomy
//! with its mapping to transport status codes, a composable validation
//! framework that accumulates field-level failures, and the conversion rules
//! that turn lower-level failures into the taxonomy.

use vstd::prelude::*;

pub mod constants;
pub mod text;
pub mod validation;
pub mod logging;
pub mod error;
pub mod entities;
pub mod json;

verus! {

/// Shared application state handed to every request handler.
#[derive(Clone)]
pub struct AppState {}

impl AppState {
    pub fn new() -> Self {
        Self {}
    }

    pub fn new_test() -> Self {
        Self {}
    }
}

} // verus!
