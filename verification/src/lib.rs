//! Gives component classes a `displayName`.
//!
//! A class that has a `render` method is taken for a UI component. Wherever
//! a declaration binds such a class to a name, the class receives the
//! member `static displayName = "<name>"` in front of its other members,
//! unless it declares a `displayName` property of its own.
//!
//! * [`ast`] holds the tree that the transform works on, and its views.
//! * [`component`] tells components from other classes and builds the new
//!   member.
//! * [`transform`] states, over views, what the transform makes of each
//!   kind of node.
//! * [`visitor`] is the pass itself: [`TransformVisitor`] and
//!   [`process_transform`].
//! * [`plan`] gives the same decisions as a list of edits, for a host that
//!   keeps its own tree.
//! * [`size`] is the measure by which the pass terminates.
//! * [`laws`] proves what holds of the transform on every tree.

pub mod ast;
pub mod component;
pub mod laws;
pub mod plan;
pub mod size;
pub mod transform;
pub mod visitor;

pub use crate::visitor::{process_transform, PluginMetadata, TransformVisitor};
