//! Browser support data in the CanIuse encoding.
//!
//! The dataset describes, for each web feature, how well each version of each
//! browser supports it. Every cell is a short string such as `"a x #1"`:
//! code letters for the support level, and footnote marks that say nothing
//! about it.
//!
//! - [`support`] holds the levels and says what a cell means; [`scan`] is the
//!   automaton that reads a cell character by character, proved to read that
//!   meaning.
//! - [`browser`], [`status`] and [`prefix`] are the closed sets of short codes
//!   of the dataset, each with its encoder, its decoder and the proof that the
//!   two are inverse to each other.
//! - [`feature`] holds the features themselves, found by id through a
//!   perfect hash map of the `phf` crate.

pub mod browser;
pub mod error;
pub mod feature;
pub mod prefix;
pub mod scan;
pub mod status;
pub mod support;
pub mod text;

pub use browser::Browser;
pub use error::DecodeError;
pub use feature::{Dataset, Feature, Record, Stat, Stats};
pub use prefix::Prefix;
pub use scan::Scan;
pub use status::Status;
pub use support::{Support, SupportParseError};
