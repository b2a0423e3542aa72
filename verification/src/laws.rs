//! What the shared vocabulary means, said of its values field by field.
pub mod checks;
pub mod downloads;
pub mod encodings;
pub mod files;
pub mod identities;
pub mod records;
pub mod reports;
pub mod requests;
pub mod sameness;
pub mod values;
pub mod wire;
