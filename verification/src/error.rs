//! The two ways a conversation can fail, and how a failure is reported.

use vstd::prelude::*;
use vstd::string::*;

verus! {

/// What the report of a console failure begins with.
pub const IO_PREFIX: &'static str = "An emergency is going on. I/O error: ";

/// What the report of a service failure begins with.
pub const OLLAMA_PREFIX: &'static str = "Uh-oh... Ollama API error: ";

/// The detail given when the input ends where a line was expected.
pub const END_OF_INPUT: &'static str = "end of input";

/// The exit status of a conversation that ended because the user left.
pub const EXIT_SUCCESS: u8 = 0;

/// The exit status of a conversation that ended in a failure.
pub const EXIT_FAILURE: u8 = 1;

/// A failure that ends the conversation. Each kind carries the detail that
/// the failing side gave, as text.
#[derive(Debug, PartialEq, Eq)]
pub enum ChatError {
    /// The console could not be read or written.
    Io(String),
    /// The completion service failed or answered what could not be read.
    Ollama(String),
}

/// A `ChatError` as a mathematical value.
pub enum ChatErrorView {
    Io(Seq<char>),
    Ollama(Seq<char>),
}

impl View for ChatError {
    type V = ChatErrorView;

    open spec fn view(&self) -> ChatErrorView {
        match self {
            ChatError::Io(detail) => ChatErrorView::Io(detail@),
            ChatError::Ollama(detail) => ChatErrorView::Ollama(detail@),
        }
    }
}

impl ChatErrorView {
    /// The report of the failure: the prefix of its kind, then the detail.
    pub open spec fn message(self) -> Seq<char> {
        match self {
            ChatErrorView::Io(detail) => IO_PREFIX@ + detail,
            ChatErrorView::Ollama(detail) => OLLAMA_PREFIX@ + detail,
        }
    }
}

impl ChatError {
    /// Builds the report of the failure.
    pub fn message(&self) -> (r: String)
        ensures
            r@ == self@.message(),
    {
        match self {
            ChatError::Io(detail) => {
                let mut report = String::from_str(IO_PREFIX);
                report.append(detail.as_str());
                report
            },
            ChatError::Ollama(detail) => {
                let mut report = String::from_str(OLLAMA_PREFIX);
                report.append(detail.as_str());
                report
            },
        }
    }
}

} // verus!
