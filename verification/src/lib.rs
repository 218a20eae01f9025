//! Kubernetes cluster browser: the data shaping, state handling and text
//! rules behind a desktop overview of cluster resources.
use vstd::prelude::*;

pub mod text;
pub mod json;
pub mod summary;
pub mod errors;
pub mod plural;
pub mod overview;
pub mod events;
pub mod watch;
pub mod selection;
pub mod display;
pub mod commands;
pub mod highlight;

verus! {
} // verus!
