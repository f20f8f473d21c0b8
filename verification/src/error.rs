//! The ways a fetch or an export can fail.

use vstd::prelude::*;

verus! {

/// Why a fetch was abandoned. Every failure ends the fetch: nothing that
/// was gathered before it is kept.
#[derive(Debug, Clone, PartialEq, Eq)]
pub enum FetchError {
    /// The request could not be carried out, or its response not read.
    Transport { cause: String },
    /// The endpoint answered with a status outside 200..=299.
    HttpStatus { status: u16, body: String },
    /// The body of a successful response is not a JSON document.
    MalformedJson { detail: String },
    /// The endpoint answered successfully with a document that has an
    /// `error` member; `payload` is that member, formatted for display.
    Api { payload: String },
}

/// A [`FetchError`] as contracts see it.
pub enum FetchErrorView {
    Transport { cause: Seq<char> },
    HttpStatus { status: u16, body: Seq<char> },
    MalformedJson { detail: Seq<char> },
    Api { payload: Seq<char> },
}

impl View for FetchError {
    type V = FetchErrorView;

    open spec fn view(&self) -> FetchErrorView {
        match *self {
            FetchError::Transport { cause } => FetchErrorView::Transport { cause: cause@ },
            FetchError::HttpStatus { status, body } => FetchErrorView::HttpStatus {
                status,
                body: body@,
            },
            FetchError::MalformedJson { detail } => FetchErrorView::MalformedJson {
                detail: detail@,
            },
            FetchError::Api { payload } => FetchErrorView::Api { payload: payload@ },
        }
    }
}

impl FetchErrorView {
    /// The one-line account of the failure.
    pub open spec fn message(self) -> Seq<char> {
        match self {
            FetchErrorView::Transport { cause } => cause,
            FetchErrorView::HttpStatus { .. } => "API request failed"@,
            FetchErrorView::MalformedJson { detail } => "error decoding response body: "@ + detail,
            FetchErrorView::Api { .. } => "API returned an error"@,
        }
    }
}

impl FetchError {
    /// A one-line account of the failure, fit to be shown to a person. The
    /// status, the body and the payload are not part of it.
    pub fn message(&self) -> (line: String)
        ensures
            line@ == self@.message(),
    {
        match self {
            FetchError::Transport { cause } => cause.clone(),
            FetchError::HttpStatus { .. } => String::from_str("API request failed"),
            FetchError::MalformedJson { detail } => {
                let mut line = String::from_str("error decoding response body: ");
                line.append(detail.as_str());
                line
            },
            FetchError::Api { .. } => String::from_str("API returned an error"),
        }
    }
}

/// Why the table could not be produced.
#[derive(Debug, Clone, PartialEq, Eq)]
pub enum ExportError {
    /// The CSV writer refused a record or could not hand over its output.
    Writer { detail: String },
}

impl ExportError {
    /// A one-line account of the failure, fit to be shown to a person.
    pub fn message(&self) -> (line: String)
        ensures
            self matches ExportError::Writer { detail } && line@ == detail@,
    {
        match self {
            ExportError::Writer { detail } => detail.clone(),
        }
    }
}

} // verus!
