//! Marketplace vocabulary: item kinds, difficulty grades and the learning
//! resource shape. Catalog traffic belongs to the surrounding system.

use vstd::prelude::*;

verus! {

/// Marketplace item type
#[derive(Debug, Clone, Copy, PartialEq, Eq, Structural)]
pub enum MarketplaceItemType {
    CustomNode,
    Template,
    Component,
    Tutorial,
}

/// Template difficulty levels
#[derive(Debug, Clone, Copy, PartialEq, Eq, Structural)]
pub enum TemplateDifficulty {
    Beginner,
    Intermediate,
    Advanced,
    Expert,
}

/// Tutorial difficulty levels
#[derive(Debug, Clone, Copy, PartialEq, Eq, Structural)]
pub enum TutorialDifficulty {
    Beginner,
    Intermediate,
    Advanced,
}

/// Tutorial resource
#[derive(Debug, Clone, PartialEq)]
pub struct TutorialResource {
    pub name: String,
    pub url: String,
    pub resource_type: String,
}

} // verus!
