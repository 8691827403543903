//! Entries of the JMnedict dictionary of names.

pub mod elements;

pub use self::elements::{Entry, Reading, Translation};

pub mod parser;
pub use self::parser::Parser;
