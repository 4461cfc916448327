//! Accessor synthesis for records.
//!
//! A record is described by its name, its generic parameters, its declared
//! visibility and its fields. Markers on the record and on its fields say
//! which fields get a getter, a mutable getter and a setter, how visible
//! these are, and whether the getter hands the value out by copy. The crate
//! reads the markers, merges them into one policy per field and lays out the
//! methods in one implementation block.
//!
//! - [`token`], [`directive`]: the tokens of a marker and the entries that
//!   they spell.
//! - [`visibility`]: visibilities, which `syn` tells from other text.
//! - [`policy`]: the record's defaults, a field's options, and the policy
//!   that the two make.
//! - [`record`], [`method`], [`block`]: what goes in and what comes out.
//! - [`expand`]: from a record to its implementation block, or to the
//!   reason why it has none.
//! - [`render`]: methods and blocks as source text.
//! - [`guarantees`], [`places`]: what holds of every record, with proof.

pub mod block;
pub mod directive;
pub mod error;
pub mod expand;
pub mod guarantees;
pub mod location;
pub mod method;
pub mod places;
pub mod policy;
pub mod record;
pub mod render;
pub mod token;
pub mod visibility;
