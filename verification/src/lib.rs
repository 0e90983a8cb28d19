//! A small persistent registry of certificate records.
//!
//! A durable counter mints strictly increasing identifiers, a durable map
//! holds the records, and a thin service layer offers exactly three
//! operations — create, fetch by id, delete — with input validation and a
//! typed error for every failure. The durable structures come from the
//! `ic-stable-structures` crate and stand behind a small trusted layer; all
//! logic above that layer is verified.

pub mod model;
pub mod registry;
pub mod stable;
pub mod text;
