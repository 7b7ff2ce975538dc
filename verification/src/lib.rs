//! Reactive font styling for text entities.
//!
//! Text entities declare the family, size and colour they want; font
//! collections hold the faces and the defaults. This crate decides, from
//! those declarations, what each text is rendered with, and which texts have
//! to be looked at again when something they depend on changes. The host that
//! stores the entities hands in what it looked up and writes back what comes
//! out.
//!
//! - [`font`] holds what texts and font collections are described with.
//! - [`plugin`] holds the requests to resolve an attribute again, the
//!   functions that say after which change which requests are due, and the
//!   functions that answer a request.
//! - [`cascade`] states what holds of every resolution and of every
//!   audience, and proves it.
//! - [`persistent_relationship_source`] holds the collection in which a font
//!   collection keeps its users.
//! - [`entity`], [`color`] and [`error`] hold the values that the host and
//!   this crate hand to each other.

pub mod cascade;
pub mod color;
pub mod entity;
pub mod error;
pub mod font;
pub mod persistent_relationship_source;
pub mod plugin;
pub mod prelude;
