//! The failures that end a run.

use vstd::prelude::*;

verus! {

/// The groups into which the fatal errors fall.
#[derive(Clone, Copy, Debug, PartialEq, Eq, Structural)]
pub enum ErrorKind {
    /// No usable schema for the requested version.
    Configuration,
    /// The whitelist is missing, unreadable, malformed or empty.
    Whitelist,
    /// The statistics directory is unreadable or holds no player's file.
    StatsDirectory,
}

/// A failure that ends the run before anything is written.
#[derive(Debug, Clone, PartialEq, Eq)]
pub enum Error {
    /// The game version is not among the supported ones.
    UnsupportedVersion { version: String },
    /// No schema could be read for the version.
    SchemaNotFound { path: String, cause: String },
    /// The schema could not be decoded.
    SchemaParseError { path: String, cause: String },
    /// Player statistics were asked for without naming a whitelist.
    MissingWhitelist,
    /// The whitelist could not be read.
    WhitelistUnreadable { cause: String },
    /// The whitelist could not be decoded.
    WhitelistMalformed { cause: String },
    /// The whitelist names no player.
    NoWhitelistEntries,
    /// The statistics directory could not be listed.
    StatsDirUnreadable { cause: String },
    /// The statistics directory holds no file of a whitelisted player.
    NoStatsFilesFound,
}

/// The mathematical content of an [`Error`].
pub enum ErrorView {
    UnsupportedVersion { version: Seq<char> },
    SchemaNotFound { path: Seq<char>, cause: Seq<char> },
    SchemaParseError { path: Seq<char>, cause: Seq<char> },
    MissingWhitelist,
    WhitelistUnreadable { cause: Seq<char> },
    WhitelistMalformed { cause: Seq<char> },
    NoWhitelistEntries,
    StatsDirUnreadable { cause: Seq<char> },
    NoStatsFilesFound,
}

impl ErrorView {
    /// The group that the error belongs to.
    pub open spec fn kind(self) -> ErrorKind {
        match self {
            ErrorView::UnsupportedVersion { .. } => ErrorKind::Configuration,
            ErrorView::SchemaNotFound { .. } => ErrorKind::Configuration,
            ErrorView::SchemaParseError { .. } => ErrorKind::Configuration,
            ErrorView::MissingWhitelist => ErrorKind::Whitelist,
            ErrorView::WhitelistUnreadable { .. } => ErrorKind::Whitelist,
            ErrorView::WhitelistMalformed { .. } => ErrorKind::Whitelist,
            ErrorView::NoWhitelistEntries => ErrorKind::Whitelist,
            ErrorView::StatsDirUnreadable { .. } => ErrorKind::StatsDirectory,
            ErrorView::NoStatsFilesFound => ErrorKind::StatsDirectory,
        }
    }

    /// The text that describes the error to the user.
    pub open spec fn message(self) -> Seq<char> {
        match self {
            ErrorView::UnsupportedVersion { version } => "Unsupported version: "@ + version,
            ErrorView::SchemaNotFound { path, cause } => path + ": "@ + cause,
            ErrorView::SchemaParseError { path, cause } => path + ": "@ + cause,
            ErrorView::MissingWhitelist => "Missing whitelist file argument. Please provide a whitelist file with the --whitelist (-w) argument."@,
            ErrorView::WhitelistUnreadable { cause } => cause,
            ErrorView::WhitelistMalformed { cause } => cause,
            ErrorView::NoWhitelistEntries => "No player profiles found in the file."@,
            ErrorView::StatsDirUnreadable { cause } => cause,
            ErrorView::NoStatsFilesFound => "No JSON files found in the directory."@,
        }
    }
}

impl DeepView for Error {
    type V = ErrorView;

    open spec fn deep_view(&self) -> ErrorView {
        match *self {
            Error::UnsupportedVersion { version } => ErrorView::UnsupportedVersion {
                version: version@,
            },
            Error::SchemaNotFound { path, cause } => ErrorView::SchemaNotFound {
                path: path@,
                cause: cause@,
            },
            Error::SchemaParseError { path, cause } => ErrorView::SchemaParseError {
                path: path@,
                cause: cause@,
            },
            Error::MissingWhitelist => ErrorView::MissingWhitelist,
            Error::WhitelistUnreadable { cause } => ErrorView::WhitelistUnreadable {
                cause: cause@,
            },
            Error::WhitelistMalformed { cause } => ErrorView::WhitelistMalformed { cause: cause@ },
            Error::NoWhitelistEntries => ErrorView::NoWhitelistEntries,
            Error::StatsDirUnreadable { cause } => ErrorView::StatsDirUnreadable { cause: cause@ },
            Error::NoStatsFilesFound => ErrorView::NoStatsFilesFound,
        }
    }
}

impl View for Error {
    type V = ErrorView;

    open spec fn view(&self) -> ErrorView {
        self.deep_view()
    }
}

impl Error {
    /// The group that the error belongs to.
    pub fn kind(&self) -> (kind: ErrorKind)
        ensures
            kind == self@.kind(),
    {
        match self {
            Error::UnsupportedVersion { .. } => ErrorKind::Configuration,
            Error::SchemaNotFound { .. } => ErrorKind::Configuration,
            Error::SchemaParseError { .. } => ErrorKind::Configuration,
            Error::MissingWhitelist => ErrorKind::Whitelist,
            Error::WhitelistUnreadable { .. } => ErrorKind::Whitelist,
            Error::WhitelistMalformed { .. } => ErrorKind::Whitelist,
            Error::NoWhitelistEntries => ErrorKind::Whitelist,
            Error::StatsDirUnreadable { .. } => ErrorKind::StatsDirectory,
            Error::NoStatsFilesFound => ErrorKind::StatsDirectory,
        }
    }

    /// The text that describes the error to the user.
    pub fn message(&self) -> (text: String)
        ensures
            text@ == self@.message(),
    {
        match self {
            Error::UnsupportedVersion { version } => {
                let mut text = String::from_str("Unsupported version: ");
                text.append(version.as_str());
                text
            },
            Error::SchemaNotFound { path, cause } => {
                let mut text = path.clone();
                text.append(": ");
                text.append(cause.as_str());
                text
            },
            Error::SchemaParseError { path, cause } => {
                let mut text = path.clone();
                text.append(": ");
                text.append(cause.as_str());
                text
            },
            Error::MissingWhitelist => String::from_str(
                "Missing whitelist file argument. Please provide a whitelist file with the --whitelist (-w) argument.",
            ),
            Error::WhitelistUnreadable { cause } => cause.clone(),
            Error::WhitelistMalformed { cause } => cause.clone(),
            Error::NoWhitelistEntries => String::from_str("No player profiles found in the file."),
            Error::StatsDirUnreadable { cause } => cause.clone(),
            Error::NoStatsFilesFound => String::from_str("No JSON files found in the directory."),
        }
    }
}

} // verus!
