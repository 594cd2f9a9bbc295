//! A verified core for a Gemini-to-HTTP gateway.
//!
//! The crate translates one inbound HTTP request path into a Gemini request
//! URL, classifies the Gemini response status into an HTTP reply, and renders
//! gemtext documents as HTML. Networking and the HTTP server live outside the
//! crate; the decision logic here is specified and verified.

pub mod escape;
pub mod gemtext;
pub mod render;
pub mod translate;
