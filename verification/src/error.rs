//! What can go wrong, by kind.

use vstd::prelude::*;
use vstd::string::StringExecFns;

verus! {

/// The part of a request that was missing or could not be read.
#[derive(Copy, Clone, Debug, PartialEq, Eq, Structural)]
pub enum ConfigurationError {
    /// No URL was given.
    EmptyUrl,
    /// The media type selector names neither audio nor video.
    MediaType,
    /// Video was asked for at a resolution that is not supported.
    Resolution,
}

/// What was found where the pipeline relies on something else.
#[derive(Copy, Clone, Debug, PartialEq, Eq, Structural)]
pub enum StateFault {
    /// The downloaded file has no extension.
    NoExtension,
    /// An answer arrived that the pipeline did not ask for at this stage.
    UnexpectedEvent,
}

/// Why a download did not finish.
#[derive(Debug, PartialEq, Eq)]
pub enum Error {
    /// The request was not valid.
    Configuration(ConfigurationError),
    /// The downloader could not be started, or did not end with status 0.
    /// Holds what it wrote to its standard error, or why it did not start.
    DownloaderExecution(String),
    /// The downloader's metadata could not be read, or lists no download.
    MetadataParse,
    /// A log file or the destination directory could not be used.
    Filesystem(String),
    /// The transcoder could not be started, or did not end with status 0.
    /// Holds what it wrote to its standard error, or why it did not start.
    TranscoderExecution(String),
    /// The pipeline found itself in a state it relies on never to reach.
    UnexpectedState(StateFault),
}

/// An [`Error`] with its texts as sequences of characters.
pub enum ErrorView {
    Configuration(ConfigurationError),
    DownloaderExecution(Seq<char>),
    MetadataParse,
    Filesystem(Seq<char>),
    TranscoderExecution(Seq<char>),
    UnexpectedState(StateFault),
}

impl View for Error {
    type V = ErrorView;

    open spec fn view(&self) -> ErrorView {
        match *self {
            Error::Configuration(field) => ErrorView::Configuration(field),
            Error::DownloaderExecution(detail) => ErrorView::DownloaderExecution(detail@),
            Error::MetadataParse => ErrorView::MetadataParse,
            Error::Filesystem(detail) => ErrorView::Filesystem(detail@),
            Error::TranscoderExecution(detail) => ErrorView::TranscoderExecution(detail@),
            Error::UnexpectedState(fault) => ErrorView::UnexpectedState(fault),
        }
    }
}

impl Clone for Error {
    fn clone(&self) -> (copy: Error)
        ensures
            copy@ == self@,
    {
        match self {
            Error::Configuration(field) => Error::Configuration(*field),
            Error::DownloaderExecution(detail) => Error::DownloaderExecution(detail.clone()),
            Error::MetadataParse => Error::MetadataParse,
            Error::Filesystem(detail) => Error::Filesystem(detail.clone()),
            Error::TranscoderExecution(detail) => Error::TranscoderExecution(detail.clone()),
            Error::UnexpectedState(fault) => Error::UnexpectedState(*fault),
        }
    }
}

impl ErrorView {
    /// The message shown for this error. Where a tool failed, the message
    /// ends with what the error holds of it.
    pub open spec fn message(self) -> Seq<char> {
        match self {
            ErrorView::Configuration(ConfigurationError::EmptyUrl) => "no URL was given"@,
            ErrorView::Configuration(ConfigurationError::MediaType) =>
                "failed to parse media type"@,
            ErrorView::Configuration(ConfigurationError::Resolution) =>
                "failed to parse resolution"@,
            ErrorView::DownloaderExecution(detail) =>
                "yt-dlp failed to execute, the error message was: \n "@ + detail,
            ErrorView::MetadataParse =>
                "Failed to parse JSON output of yt-dlp, check the log file `yt-dlp.log`"@,
            ErrorView::Filesystem(detail) => detail,
            ErrorView::TranscoderExecution(detail) =>
                "ffmpeg failed to execute, the error message was: \n "@ + detail,
            ErrorView::UnexpectedState(StateFault::NoExtension) =>
                "File downloaded does not have a valid extension"@,
            ErrorView::UnexpectedState(StateFault::UnexpectedEvent) =>
                "The pipeline was given an answer it had not asked for"@,
        }
    }
}

impl Error {
    /// The message shown for this error.
    pub fn message(&self) -> (message: String)
        ensures
            message@ == self@.message(),
    {
        match self {
            Error::Configuration(ConfigurationError::EmptyUrl) => String::from_str(
                "no URL was given",
            ),
            Error::Configuration(ConfigurationError::MediaType) => String::from_str(
                "failed to parse media type",
            ),
            Error::Configuration(ConfigurationError::Resolution) => String::from_str(
                "failed to parse resolution",
            ),
            Error::DownloaderExecution(detail) => String::from_str(
                "yt-dlp failed to execute, the error message was: \n ",
            ).concat(detail.as_str()),
            Error::MetadataParse => String::from_str(
                "Failed to parse JSON output of yt-dlp, check the log file `yt-dlp.log`",
            ),
            Error::Filesystem(detail) => detail.clone(),
            Error::TranscoderExecution(detail) => String::from_str(
                "ffmpeg failed to execute, the error message was: \n ",
            ).concat(detail.as_str()),
            Error::UnexpectedState(StateFault::NoExtension) => String::from_str(
                "File downloaded does not have a valid extension",
            ),
            Error::UnexpectedState(StateFault::UnexpectedEvent) => String::from_str(
                "The pipeline was given an answer it had not asked for",
            ),
        }
    }
}

} // verus!
