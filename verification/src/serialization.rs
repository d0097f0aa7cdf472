//! The document record that the persistence format carries, and the error a
//! failed load reports.
//!
//! The JSON encoding and decoding of this record are done outside the
//! library; the record itself, the strict version check and the repair of an
//! empty layer list are the library's and are verified in the engine's
//! document operations.

use vstd::prelude::*;

use crate::layer::{Layer, LayerView};
use crate::point::Color;

verus! {

/// The mathematical value of a document record.
#[verifier::ext_equal]
pub ghost struct DocumentDataView {
    pub version: u32,
    pub width: u64,
    pub height: u64,
    pub background_color: Color,
    pub layers: Seq<LayerView>,
}

/// A complete document: format version, canvas size (double bit patterns),
/// background color and layers.
pub struct DocumentData {
    pub version: u32,
    pub width: u64,
    pub height: u64,
    pub background_color: Color,
    pub layers: Vec<Layer>,
}

impl View for DocumentData {
    type V = DocumentDataView;

    open spec fn view(&self) -> DocumentDataView {
        DocumentDataView {
            version: self.version,
            width: self.width,
            height: self.height,
            background_color: self.background_color,
            layers: self.layers.deep_view(),
        }
    }
}

/// The document format version this library reads and writes.
pub const DOCUMENT_VERSION: u32 = 1;

/// What loading a document can fail with. The engine's state is untouched on
/// failure.
#[derive(Debug)]
pub enum DrawEngineError {
    SerializationError { message: String },
}

impl DrawEngineError {
    /// The human-readable message carried by the error.
    pub open spec fn message_spec(&self) -> Seq<char> {
        match self {
            DrawEngineError::SerializationError { message } => message@,
        }
    }

    pub fn message(&self) -> (m: &String)
        ensures
            m@ == self.message_spec(),
    {
        match self {
            DrawEngineError::SerializationError { message } => message,
        }
    }
}

} // verus!
