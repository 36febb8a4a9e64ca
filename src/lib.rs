//! Compatibility reports for a ProtonDB lookup tool: the report model and
//! its decoding from JSON, the fault vocabulary, the tinker steps a
//! contributor applied, the line-by-line layout of a report block, the
//! rating labels of search hits, and the bucket identifier under which a
//! title's reports are published.
pub mod text;
pub mod json;
pub mod faults;
pub mod model;
pub mod decode;
pub mod tinker;
pub mod layout;
pub mod laws;
pub mod summary;
pub mod protondb_id;
pub mod query;
