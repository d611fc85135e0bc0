//! Errors reported by the page parsers.

use vstd::prelude::*;

verus! {

/// Why a page could not be turned into records.
///
/// Missing optional fields are never errors; only a page whose overall shape
/// is wrong is reported.
#[derive(Debug, Clone, PartialEq, Eq)]
pub enum ScraperError {
    /// A required anchor element is missing; the text says which one.
    ElementNotFound(String),
    /// The page as a whole does not have the expected shape.
    ParsingError(String),
}

/// Mathematical model of a [`ScraperError`].
pub enum ScraperErrorView {
    ElementNotFound(Seq<char>),
    ParsingError(Seq<char>),
}

impl DeepView for ScraperError {
    type V = ScraperErrorView;

    open spec fn deep_view(&self) -> ScraperErrorView {
        match self {
            ScraperError::ElementNotFound(context) => ScraperErrorView::ElementNotFound(context@),
            ScraperError::ParsingError(context) => ScraperErrorView::ParsingError(context@),
        }
    }
}

/// What is said before the context of a missing element.
pub const ELEMENT_NOT_FOUND: &'static str = "element not found: ";

/// What is said before the context of a page of the wrong shape.
pub const PARSING_ERROR: &'static str = "parsing error: ";

impl ScraperErrorView {
    /// The error in words: its kind, then its context.
    pub open spec fn message(self) -> Seq<char> {
        match self {
            ScraperErrorView::ElementNotFound(context) => ELEMENT_NOT_FOUND@ + context,
            ScraperErrorView::ParsingError(context) => PARSING_ERROR@ + context,
        }
    }
}

impl ScraperError {
    /// The error in words: its kind, then its context.
    pub fn message(&self) -> (text: String)
        ensures
            text@ == self.deep_view().message(),
    {
        match self {
            ScraperError::ElementNotFound(context) => {
                String::from_str(ELEMENT_NOT_FOUND).concat(context.as_str())
            },
            ScraperError::ParsingError(context) => {
                String::from_str(PARSING_ERROR).concat(context.as_str())
            },
        }
    }

    /// The context text carried by the error.
    pub fn context(&self) -> (text: &str)
        ensures
            text@ == match self.deep_view() {
                ScraperErrorView::ElementNotFound(c) => c,
                ScraperErrorView::ParsingError(c) => c,
            },
    {
        match self {
            ScraperError::ElementNotFound(context) => context.as_str(),
            ScraperError::ParsingError(context) => context.as_str(),
        }
    }
}

} // verus!
