//! Nations, and what the host reports of them.

use crate::model::enums::{Era, NationStatus, SubmissionStatus};
use vstd::prelude::*;

verus! {

/// A playable faction. Its id is unique among the nations of its era.
#[derive(Debug, Clone, Copy, PartialEq)]
pub struct Nation {
    pub id: u32,
    pub name: &'static str,
    pub era: Era,
}

/// One nation slot as the host reports it.
#[derive(Debug, Clone, Copy, PartialEq)]
pub struct NationDetails {
    pub nation: Nation,
    pub status: NationStatus,
    pub submitted: SubmissionStatus,
    pub connected: bool,
}

} // verus!
