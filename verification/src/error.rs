//! The typed failures of the pipeline. Every stage returns one of these
//! instead of printing and exiting; a single caller at the top renders the
//! message and sets the exit code.

use vstd::prelude::*;
use vstd::string::StringExecFns;

verus! {

/// A fatal condition of one pipeline run.
#[derive(Debug)]
pub enum WikiError {
    /// The language code is not one of the supported Wikipedia editions.
    InvalidLanguage,
    /// The search returned no candidate at all.
    NothingFound { topic: String },
    /// A pre-supplied disambiguation index lies outside `1..=count`.
    IndexOutOfBound,
    /// An interactive selection line neither was empty nor named a candidate.
    SelectionFailed,
    /// A response body did not have the shape the endpoint promises.
    MalformedResponse,
    /// The title is a special page that cannot be resolved to an article.
    QuirkyTitle { title: String, link: String },
    /// A probe that had to answer with a redirect did not.
    ExpectedRedirect { link: String },
    /// The summary endpoint answered with a failure status.
    SummaryFetchFailed { title: String, link: String },
    /// The extract query knows no page under the title.
    NoSummary { title: String, link: String },
    /// The redirect-fallback chain exceeded its hop bound.
    TooManyRedirects { title: String },
    /// The transport failed underneath a request; the caller supplies the
    /// detail text.
    Transport { detail: String },
}

/// The ghost image of a `WikiError`: the same cases over character
/// sequences, for use in stage contracts.
pub enum ErrorModel {
    InvalidLanguage,
    NothingFound { topic: Seq<char> },
    IndexOutOfBound,
    SelectionFailed,
    MalformedResponse,
    QuirkyTitle { title: Seq<char>, link: Seq<char> },
    ExpectedRedirect { link: Seq<char> },
    SummaryFetchFailed { title: Seq<char>, link: Seq<char> },
    NoSummary { title: Seq<char>, link: Seq<char> },
    TooManyRedirects { title: Seq<char> },
    Transport { detail: Seq<char> },
}

/// The ghost image of an error value.
pub open spec fn error_model(e: WikiError) -> ErrorModel {
    match e {
        WikiError::InvalidLanguage => ErrorModel::InvalidLanguage,
        WikiError::NothingFound { topic } => ErrorModel::NothingFound { topic: topic@ },
        WikiError::IndexOutOfBound => ErrorModel::IndexOutOfBound,
        WikiError::SelectionFailed => ErrorModel::SelectionFailed,
        WikiError::MalformedResponse => ErrorModel::MalformedResponse,
        WikiError::QuirkyTitle { title, link } => ErrorModel::QuirkyTitle {
            title: title@,
            link: link@,
        },
        WikiError::ExpectedRedirect { link } => ErrorModel::ExpectedRedirect { link: link@ },
        WikiError::SummaryFetchFailed { title, link } => ErrorModel::SummaryFetchFailed {
            title: title@,
            link: link@,
        },
        WikiError::NoSummary { title, link } => ErrorModel::NoSummary {
            title: title@,
            link: link@,
        },
        WikiError::TooManyRedirects { title } => ErrorModel::TooManyRedirects { title: title@ },
        WikiError::Transport { detail } => ErrorModel::Transport { detail: detail@ },
    }
}

/// The diagnostic text of each failure.
pub open spec fn message_of(e: ErrorModel) -> Seq<char> {
    match e {
        ErrorModel::InvalidLanguage => "Invalid lang code"@,
        ErrorModel::NothingFound { topic } => "Nothing related to "@ + topic + " was found."@,
        ErrorModel::IndexOutOfBound => "Index out of bound"@,
        ErrorModel::SelectionFailed => "Error parsing the input"@,
        ErrorModel::MalformedResponse => "Malformed API response"@,
        ErrorModel::QuirkyTitle { title, link } => "Quirky Wikipedia page: "@ + title
            + "\nOpen the page in the browser instead.\nLink: "@ + link,
        ErrorModel::ExpectedRedirect { link } => "Expected redirection.\nLink: "@ + link,
        ErrorModel::SummaryFetchFailed { title, link } => "Couldn't fetch the summary on "@
            + title + ". The link is "@ + link,
        ErrorModel::NoSummary { title, link } => "No summary found on "@ + title + ". Link: "@
            + link,
        ErrorModel::TooManyRedirects { title } => "Too many redirections on "@ + title,
        ErrorModel::Transport { detail } => detail,
    }
}

impl WikiError {
    /// The diagnostic to show the user for this failure.
    pub fn message(&self) -> (r: String)
        ensures
            r@ == message_of(error_model(*self)),
    {
        match self {
            WikiError::InvalidLanguage => String::from_str("Invalid lang code"),
            WikiError::NothingFound { topic } => {
                let mut m = String::from_str("Nothing related to ");
                m.append(topic.as_str());
                m.append(" was found.");
                m
            },
            WikiError::IndexOutOfBound => String::from_str("Index out of bound"),
            WikiError::SelectionFailed => String::from_str("Error parsing the input"),
            WikiError::MalformedResponse => String::from_str("Malformed API response"),
            WikiError::QuirkyTitle { title, link } => {
                let mut m = String::from_str("Quirky Wikipedia page: ");
                m.append(title.as_str());
                m.append("\nOpen the page in the browser instead.\nLink: ");
                m.append(link.as_str());
                m
            },
            WikiError::ExpectedRedirect { link } => {
                let mut m = String::from_str("Expected redirection.\nLink: ");
                m.append(link.as_str());
                m
            },
            WikiError::SummaryFetchFailed { title, link } => {
                let mut m = String::from_str("Couldn't fetch the summary on ");
                m.append(title.as_str());
                m.append(". The link is ");
                m.append(link.as_str());
                m
            },
            WikiError::NoSummary { title, link } => {
                let mut m = String::from_str("No summary found on ");
                m.append(title.as_str());
                m.append(". Link: ");
                m.append(link.as_str());
                m
            },
            WikiError::TooManyRedirects { title } => {
                let mut m = String::from_str("Too many redirections on ");
                m.append(title.as_str());
                m
            },
            WikiError::Transport { detail } => detail.clone(),
        }
    }
}

} // verus!
