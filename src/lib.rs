//! A small form-echo web endpoint: a fixed page at `/`, and `/register`, which
//! decodes a form-encoded `some_text` field and echoes it in an HTML fragment.

pub mod form;
pub mod handlers;
pub mod percent;
pub mod response;
pub mod routes;
pub mod text;
