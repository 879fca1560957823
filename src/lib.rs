//! Request description and rendering decisions for a small command-line
//! HTTP client: header and method parsing, backend selection, the choice of
//! request body source, and the layout of the rendered response.
pub mod backend;
pub mod header;
pub mod longboard;
pub mod method;
pub mod render;
