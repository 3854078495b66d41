//! The error of a transform: where it happened and why.

use vstd::prelude::*;

verus! {

/// A byte range of the source.
#[derive(Clone, Copy, Debug, PartialEq, Eq, Structural)]
pub struct Span {
    pub lo: u32,
    pub hi: u32,
}

/// An error that the style block's processing reported.
pub struct CssError {
    pub span: Span,
    pub message: String,
}

pub enum TransformErrorKind {
    CssError(CssError),
}

/// A failed transform, with the place of the failure.
pub struct TransformError {
    pub span: Span,
    pub kind: TransformErrorKind,
}

impl From<CssError> for TransformError {
    fn from(value: CssError) -> (r: TransformError) {
        TransformError { span: value.span, kind: TransformErrorKind::CssError(value) }
    }
}

impl vstd::std_specs::convert::FromSpecImpl<CssError> for TransformError {
    open spec fn obeys_from_spec() -> bool {
        true
    }

    open spec fn from_spec(v: CssError) -> TransformError {
        TransformError { span: v.span, kind: TransformErrorKind::CssError(v) }
    }
}

impl TransformError {
    /// Where the transform failed.
    pub fn span(&self) -> (r: Span)
        ensures
            r == self.span,
    {
        self.span
    }
}

} // verus!
