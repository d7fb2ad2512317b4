//! A verified reader of the BTOR2 textual format: flat, line-oriented,
//! id-referencing statements describing bit-vector and array transition
//! systems.
//!
//! A [`parser::Btor2Parser`] consumes an in-memory byte source line by line,
//! checks each statement against its tag's field shape, resolves every id
//! reference against what was declared before, and yields immutable
//! [`ast::Btor2Line`] records. The first malformed line stops the session
//! with a line-numbered [`error::Btor2ParserError`].

pub mod ast;
pub mod error;
pub mod laws;
pub mod parser;
pub mod tags;
pub mod token;

pub use ast::Btor2Line;
pub use ast::Btor2Sort;
pub use ast::Btor2SortContent;
pub use error::Btor2ParserError;
pub use parser::Btor2LineIterator;
pub use parser::Btor2Parser;
pub use tags::Btor2SortTag;
pub use tags::Btor2Tag;
