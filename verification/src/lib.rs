//! A staged builder for deleting one document of a hierarchical document
//! database.
//!
//! A delete is assembled in three stages, each a type of its own that offers
//! only what is legal at that point: first the collection, then an optional
//! parent path, then the document. The last stage decides which of the
//! backend's two delete operations addresses the document and with which
//! arguments. The library performs no I/O: the decision is handed out as a
//! [`FirestoreDeleteCall`], and whoever drives the backend makes that call.

pub mod call;
pub mod delete_builder;
pub mod model;

pub use call::FirestoreDeleteCall;
pub use delete_builder::FirestoreDeleteDocIdBuilder;
pub use delete_builder::FirestoreDeleteExecuteBuilder;
pub use delete_builder::FirestoreDeleteInitialBuilder;
