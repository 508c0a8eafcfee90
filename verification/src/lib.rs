//! Nested markup for a streaming writer.
//!
//! An element is written as its start tag, whatever a closure writes for its
//! content, and its end tag. The closure gets the sink and may write further
//! elements to it, so that the markup nests as the calls do:
//!
//! ```
//! use nestxml::{element, Sink};
//! use xml::EmitterConfig;
//!
//! let writer = EmitterConfig::new()
//!     .write_document_declaration(false)
//!     .create_writer(Vec::new());
//! let mut out = Sink::new(writer);
//! element(&mut out, "contacts").write(|out| {
//!     element(out, "first_name").text("John")?;
//!     element(out, "last_name").text("Doe")
//! }).unwrap();
//! let bytes = out.into_inner().into_inner();
//! assert_eq!(
//!     &bytes[..],
//!     &b"<contacts><first_name>John</first_name><last_name>Doe</last_name></contacts>"[..]
//! );
//! ```
//!
//! Nothing is kept in memory but the element that is being started, and
//! nothing is undone: the first failure ends every write that is under way
//! and leaves the output where it stood.
//!
//! The markup itself is made by the `xml` crate. What is proved here is what
//! this crate offers to that writer, and in which order: see [`Sink::offers`]
//! and the module [`trace`].

pub mod element;
pub mod html;
pub mod sink;
pub mod trace;

pub use element::{close, element, Element};
pub use sink::Sink;
