//! Verified core of a wrapper around an external OCR engine's layout cursor.
//!
//! The engine walks a recognized page as a tree of blocks, paragraphs, lines,
//! words and symbols. This crate owns the value side of that walk: the
//! granularity levels, the per-element records, exclusive ownership of the
//! engine's text buffers, and the cursor protocol ("the first read does not
//! advance; an explicit advance either moves to the next element at a level
//! or reports exhaustion"). The engine itself is reached only through an
//! unverified foreign-function layer that feeds these types.

pub mod layout;
pub mod result_iterator;
pub mod text;

pub use layout::Element;
pub use layout::Level;
pub use layout::PageLayout;
pub use layout::Position;
pub use result_iterator::BoundingRect;
pub use result_iterator::ResultItem;
pub use result_iterator::ResultItemView;
pub use result_iterator::ResultIterator;
pub use result_iterator::ResultIteratorIter;
pub use text::Text;
