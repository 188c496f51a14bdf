//! A line reader that keeps one text buffer for its whole life.
//!
//! [`Lines`] wraps a buffered byte source and hands out each line as a view
//! into a buffer that it clears and refills on every pull, so that reading a
//! long file costs a handful of allocations instead of one per line.
//!
//! The reader is no `Iterator`: a view into the reader's own buffer cannot
//! outlive the next pull. Use `while let`:
//!
//! ``` text
//! while let Some(Ok(line)) = lines.next() { .. }
//! ```

pub mod checksum;
pub mod document;
pub mod reader;
pub mod source;
pub mod text;

pub use checksum::byte_sum;
pub use reader::settle;
pub use reader::Lines;
