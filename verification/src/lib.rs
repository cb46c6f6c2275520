//! The core of an OCR inference service: the lifetime of the loaded model,
//! the dispatch of recognition requests, the public result schema, the
//! extraction of plain text from it and the rendering of overlays.

pub mod codec;
pub mod dispatch;
pub mod envelope;
pub mod error;
pub mod form;
pub mod json;
pub mod model;
pub mod normalize;
pub mod number;
pub mod overlay;
pub mod raster;
pub mod reduced;
pub mod response;
pub mod shell;
pub mod text;
