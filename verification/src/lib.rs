//! Verified core of the Ladefuchs charging-price backend.
use vstd::prelude::*;

pub mod db;
pub mod eco_movement;
pub mod emoji;
pub mod feedback_infos;
pub mod file_watcher;
pub mod fixtures;
pub mod fuchs_middleware;
pub mod image;
pub mod image_import;
pub mod pattern;
pub mod text;
pub mod web;

verus! {

/// Identifiers of records are UUIDs; the library carries them through.
#[verifier::external_type_specification]
#[verifier::external_body]
pub struct ExUuid(uuid::Uuid);

} // verus!
