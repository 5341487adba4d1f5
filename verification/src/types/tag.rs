//! Tags that can be attached to tasks.
use std::collections::BTreeMap;

use vstd::prelude::*;

use super::datetime::DateTime;
use super::id::Uuid;

verus! {

/// The id a tag has been given by the super-productivity app, if any.
#[derive(Debug)]
pub struct SuperProductivity {
    pub id: Option<String>,
}

/// Settings of a tag for outside tools.
#[derive(Debug)]
pub struct ExternalTools {
    pub super_productivity: Option<SuperProductivity>,
}

impl Default for ExternalTools {
    fn default() -> (r: Self)
        ensures
            r.super_productivity is None,
    {
        ExternalTools { super_productivity: None }
    }
}

/// Recorded id of a tag in the super-productivity app.
#[derive(Debug)]
pub struct SuperProductivityState {
    pub id: String,
}

/// Recorded state of a tag in outside tools.
#[derive(Debug)]
pub struct ExternalState {
    pub super_productivity: Option<SuperProductivityState>,
}

impl Default for ExternalState {
    fn default() -> (r: Self)
        ensures
            r.super_productivity is None,
    {
        ExternalState { super_productivity: None }
    }
}

/// A tag as referenced from a task.
#[derive(Debug)]
pub struct TagRef {
    pub id: Uuid,
    pub name: String,
    pub external_tools: ExternalTools,
}

/// A tag definition.
#[derive(Debug)]
pub struct TagInfo {
    pub id: Uuid,
    pub name: String,
    pub created: DateTime,
    pub color: String,
    pub data: serde_json::Value,
    pub external_tools: ExternalTools,
}

/// Recorded state of a tag.
#[derive(Debug)]
pub struct TagState {
    pub external_tools: ExternalState,
}

impl Default for TagState {
    fn default() -> (r: Self)
        ensures
            r.external_tools.super_productivity is None,
    {
        TagState { external_tools: ExternalState::default() }
    }
}

/// Recorded state of all tags, by tag id.
pub type TagsState = BTreeMap<u128, TagState>;

} // verus!
