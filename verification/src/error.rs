//! The diagnostics shared by the grammar, the instruction builder and the codec.

use vstd::prelude::*;
use crate::text::{decimal_text, push_decimal, push_str};

verus! {

/// What can go wrong while a label is compiled or drawn.
#[derive(Debug)]
pub enum ZplError {
    /// The text does not follow the grammar.
    ParseError {
        /// The line, counted from 1, on which the grammar gave up.
        line: usize,
        /// What was wrong there.
        message: String,
    },
    /// The commands cannot be turned into instructions.
    InstructionError(String),
    /// A drawing backend reported a failure.
    BackendError(String),
    /// A font could not be loaded or registered.
    FontError(String),
    /// The text holds no command at all.
    EmptyInput,
    /// Image data could not be read.
    ImageError(String),
    /// A limit that protects against hostile input was reached.
    SecurityLimitExceeded(String),
    /// Anything else.
    Unexpected(String),
}

/// A result whose error is a [`ZplError`].
pub type ZplResult<T> = Result<T, ZplError>;

/// The mathematical value of a [`ZplError`].
pub enum ZplErrorView {
    ParseError { line: nat, message: Seq<char> },
    InstructionError(Seq<char>),
    BackendError(Seq<char>),
    FontError(Seq<char>),
    EmptyInput,
    ImageError(Seq<char>),
    SecurityLimitExceeded(Seq<char>),
    Unexpected(Seq<char>),
}

impl View for ZplError {
    type V = ZplErrorView;

    open spec fn view(&self) -> ZplErrorView {
        match self {
            ZplError::ParseError { line, message } => ZplErrorView::ParseError {
                line: *line as nat,
                message: message@,
            },
            ZplError::InstructionError(m) => ZplErrorView::InstructionError(m@),
            ZplError::BackendError(m) => ZplErrorView::BackendError(m@),
            ZplError::FontError(m) => ZplErrorView::FontError(m@),
            ZplError::EmptyInput => ZplErrorView::EmptyInput,
            ZplError::ImageError(m) => ZplErrorView::ImageError(m@),
            ZplError::SecurityLimitExceeded(m) => ZplErrorView::SecurityLimitExceeded(m@),
            ZplError::Unexpected(m) => ZplErrorView::Unexpected(m@),
        }
    }
}

/// The sentence a user reads for an error. A parse error always names its line.
pub open spec fn error_text(e: ZplErrorView) -> Seq<char> {
    match e {
        ZplErrorView::ParseError { line, message } => "Parse error at line "@ + decimal_text(line)
            + ": "@ + message,
        ZplErrorView::InstructionError(m) => "Instruction builder error: "@ + m,
        ZplErrorView::BackendError(m) => "Rendering backend error: "@ + m,
        ZplErrorView::FontError(m) => "Font error: "@ + m,
        ZplErrorView::EmptyInput => "Empty or invalid ZPL input"@,
        ZplErrorView::ImageError(m) => "Image processing error: "@ + m,
        ZplErrorView::SecurityLimitExceeded(m) => "Security limit exceeded: "@ + m,
        ZplErrorView::Unexpected(m) => "Unexpected error: "@ + m,
    }
}

/// `head` followed by `tail`.
fn prefixed(head: &str, tail: &str) -> (s: String)
    ensures
        s@ == head@ + tail@,
{
    let mut s = String::new();
    push_str(&mut s, head);
    push_str(&mut s, tail);
    s
}

impl ZplError {
    /// The sentence a user reads for this error.
    pub fn to_string(&self) -> (s: String)
        ensures
            s@ == error_text(self@),
    {
        match self {
            ZplError::ParseError { line, message } => {
                let mut s = String::new();
                push_str(&mut s, "Parse error at line ");
                push_decimal(&mut s, *line);
                push_str(&mut s, ": ");
                push_str(&mut s, message.as_str());
                s
            },
            ZplError::InstructionError(m) => prefixed("Instruction builder error: ", m.as_str()),
            ZplError::BackendError(m) => prefixed("Rendering backend error: ", m.as_str()),
            ZplError::FontError(m) => prefixed("Font error: ", m.as_str()),
            ZplError::EmptyInput => "Empty or invalid ZPL input".to_owned(),
            ZplError::ImageError(m) => prefixed("Image processing error: ", m.as_str()),
            ZplError::SecurityLimitExceeded(m) => prefixed("Security limit exceeded: ", m.as_str()),
            ZplError::Unexpected(m) => prefixed("Unexpected error: ", m.as_str()),
        }
    }
}

} // verus!
