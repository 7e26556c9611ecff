//! Configuration, submission decisions and serialisation for an embedded
//! payment element.
pub mod json;
pub mod options;
pub mod mount;
pub mod submission;
pub mod serialize;
pub use serialize::payment_method_to_string;
