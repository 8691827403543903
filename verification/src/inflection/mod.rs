//! Inflection of verbs and adjectives.

pub mod form;
pub use self::form::Form;
pub mod set;
pub use self::set::Inflection;
pub mod inflections;
pub use self::inflections::Inflections;
pub mod permutations;
pub use self::permutations::{reading_permutations, PosSet};
pub mod tables;
pub mod conjugate;
pub mod basic_forms;
pub use self::conjugate::{conjugate, Kind, Reading};
