//! Verified core of a component scaffolding tool: naming rules for generated
//! identifiers, path resolution for where components live, and the choice of
//! which template source to use.

pub mod case;
pub mod path;
pub mod domain;
pub mod discovery;
pub mod engine;
pub mod templates;
