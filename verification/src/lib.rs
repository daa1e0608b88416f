//! Grades a block of free text against a five-criterion rubric and renders a
//! weighted percentage report.
//!
//! Scores are fixed-point: a grade counts thousandths of a full mark, so every
//! contract is stated over integers.

pub mod aggregator;
pub mod answer;
pub mod finding;
pub mod grade;
pub mod link;
pub mod lint;
pub mod report;

pub use crate::aggregator::Rubric;
pub use crate::finding::{FindingKind, LintCategory};
pub use crate::grade::Grade;
pub use crate::link::BadPattern;
