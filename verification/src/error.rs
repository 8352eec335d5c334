//! The failures that the two pipelines report.

use vstd::prelude::*;
use vstd::string::*;

verus! {

/// Why an icon could not be resolved or a launcher could not be created.
#[derive(Debug, PartialEq, Eq)]
pub enum WebAppError {
    /// The name or the URL is empty once white space is trimmed.
    MissingField,
    /// The name holds no character that survives in a safe name.
    UnusableName,
    /// The user's home directory is not known.
    HomeDirectoryUnavailable,
    /// A directory could not be created or a file could not be written.
    FilesystemError { path: String, cause: String },
    /// A request could not be sent or its answer could not be read.
    NetworkError { url: String, cause: String },
    /// The server answered the icon request with a status outside 200..=299.
    IconDownloadFailed { url: String },
    /// The icon link found in the page cannot be resolved against the page's URL.
    HtmlParseError { href: String },
}

/// A failure of the icon pipeline.
pub type IconError = WebAppError;

/// A failure of the launcher pipeline.
pub type LauncherError = WebAppError;

/// The mathematical content of a [`WebAppError`].
pub enum WebAppErrorView {
    MissingField,
    UnusableName,
    HomeDirectoryUnavailable,
    FilesystemError { path: Seq<char>, cause: Seq<char> },
    NetworkError { url: Seq<char>, cause: Seq<char> },
    IconDownloadFailed { url: Seq<char> },
    HtmlParseError { href: Seq<char> },
}

impl View for WebAppError {
    type V = WebAppErrorView;

    open spec fn view(&self) -> WebAppErrorView {
        match self {
            WebAppError::MissingField => WebAppErrorView::MissingField,
            WebAppError::UnusableName => WebAppErrorView::UnusableName,
            WebAppError::HomeDirectoryUnavailable => WebAppErrorView::HomeDirectoryUnavailable,
            WebAppError::FilesystemError { path, cause } => WebAppErrorView::FilesystemError {
                path: path@,
                cause: cause@,
            },
            WebAppError::NetworkError { url, cause } => WebAppErrorView::NetworkError {
                url: url@,
                cause: cause@,
            },
            WebAppError::IconDownloadFailed { url } => WebAppErrorView::IconDownloadFailed {
                url: url@,
            },
            WebAppError::HtmlParseError { href } => WebAppErrorView::HtmlParseError { href: href@ },
        }
    }
}

impl WebAppErrorView {
    /// The message shown to the user for this failure.
    pub open spec fn message(self) -> Seq<char> {
        match self {
            WebAppErrorView::MissingField => "Name and URL are required."@,
            WebAppErrorView::UnusableName => "Name must hold a letter, a digit or an underscore."@,
            WebAppErrorView::HomeDirectoryUnavailable => "Could not find home directory"@,
            WebAppErrorView::FilesystemError { path, cause } => "Could not write "@ + path + ": "@
                + cause,
            WebAppErrorView::NetworkError { url, cause } => "Could not fetch "@ + url + ": "@
                + cause,
            WebAppErrorView::IconDownloadFailed { url } => "Failed to download icon from "@ + url,
            WebAppErrorView::HtmlParseError { href } => "Could not resolve icon link "@ + href,
        }
    }
}

impl Clone for WebAppError {
    fn clone(&self) -> (same: WebAppError)
        ensures
            same@ == self@,
    {
        match self {
            WebAppError::MissingField => WebAppError::MissingField,
            WebAppError::UnusableName => WebAppError::UnusableName,
            WebAppError::HomeDirectoryUnavailable => WebAppError::HomeDirectoryUnavailable,
            WebAppError::FilesystemError { path, cause } => WebAppError::FilesystemError {
                path: path.clone(),
                cause: cause.clone(),
            },
            WebAppError::NetworkError { url, cause } => WebAppError::NetworkError {
                url: url.clone(),
                cause: cause.clone(),
            },
            WebAppError::IconDownloadFailed { url } => WebAppError::IconDownloadFailed {
                url: url.clone(),
            },
            WebAppError::HtmlParseError { href } => WebAppError::HtmlParseError {
                href: href.clone(),
            },
        }
    }
}

impl WebAppError {
    /// The message shown to the user for this failure.
    pub fn message(&self) -> (text: String)
        ensures
            text@ == self@.message(),
    {
        match self {
            WebAppError::MissingField => "Name and URL are required.".to_string(),
            WebAppError::UnusableName => "Name must hold a letter, a digit or an underscore.".to_string(),
            WebAppError::HomeDirectoryUnavailable => "Could not find home directory".to_string(),
            WebAppError::FilesystemError { path, cause } => {
                let mut text = "Could not write ".to_string();
                text.append(path.as_str());
                text.append(": ");
                text.append(cause.as_str());
                text
            },
            WebAppError::NetworkError { url, cause } => {
                let mut text = "Could not fetch ".to_string();
                text.append(url.as_str());
                text.append(": ");
                text.append(cause.as_str());
                text
            },
            WebAppError::IconDownloadFailed { url } => {
                let mut text = "Failed to download icon from ".to_string();
                text.append(url.as_str());
                text
            },
            WebAppError::HtmlParseError { href } => {
                let mut text = "Could not resolve icon link ".to_string();
                text.append(href.as_str());
                text
            },
        }
    }
}

/// The mathematical content of a pipeline's outcome.
pub open spec fn outcome_view(outcome: Result<String, WebAppError>) -> Result<
    Seq<char>,
    WebAppErrorView,
> {
    match outcome {
        Ok(text) => Ok(text@),
        Err(error) => Err(error@),
    }
}

} // verus!
