//! Block documents, component templates and table records of the
//! upbase service, with the rules that the service applies to them.

pub mod clock;
pub mod document;
pub mod error;
pub mod flow;
pub mod persona;
pub mod record;
pub mod store;
pub mod tables;
pub mod template;
pub mod value;
