//! The query builder and entity resolution of an ORM: query trees, their
//! rendering into SQL tokens with `?` placeholders, the values bound to
//! those placeholders, the reading of entity structs by the entity derive,
//! and the unwrapping of view closures.

pub mod state;
pub mod text;
pub mod value;
pub mod ident;
pub mod expr;
pub mod select;
pub mod update;
pub mod delete;
pub mod insert;
pub mod error;
pub mod definition;
pub mod entity;
pub mod types;
pub mod fields;
pub mod resolve;
pub mod view_resolver;
pub mod tag;
pub mod view;
