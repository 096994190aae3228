//! Ingestion of uploaded images: each form field is resolved to a byte payload
//! and a safe file name, the payload is stored, and a bounded thumbnail is
//! rendered from it. The functions here decide and compute; reading the
//! request, fetching remote images and writing files is left to the caller.

pub mod names;
pub mod source;
pub mod preview;
pub mod pipeline;
