//! Errors of the torrent-add workflow.

use vstd::prelude::*;
use vstd::string::*;

verus! {

/// Which half of a two-request addition failed.
#[derive(Debug, Clone, Copy, PartialEq, Eq, Structural)]
pub enum CompositeFailure {
    /// The file request succeeded, the link request did not.
    UrlsFailed,
    /// The link request succeeded, the file request did not.
    TorrentFilesFailed,
    /// Neither request succeeded.
    BothFailed,
}

impl CompositeFailure {
    /// A human-readable reason for the failure.
    pub fn reason(&self) -> (r: String)
        ensures
            r@ == reason_spec(*self),
    {
        match self {
            CompositeFailure::UrlsFailed => String::from_str("urls add failed"),
            CompositeFailure::TorrentFilesFailed => String::from_str("torrent files add failed"),
            CompositeFailure::BothFailed => String::from_str("both failed"),
        }
    }
}

/// The reason text of each composite failure.
pub open spec fn reason_spec(f: CompositeFailure) -> Seq<char> {
    match f {
        CompositeFailure::UrlsFailed => "urls add failed"@,
        CompositeFailure::TorrentFilesFailed => "torrent files add failed"@,
        CompositeFailure::BothFailed => "both failed"@,
    }
}

/// What can go wrong while adding torrents.
#[derive(Debug, Clone)]
pub enum Error {
    /// The batch of torrents was empty.
    TorrentsNotSet,
    /// A local torrent file could not be opened or read in full.
    TorrentFilePathError,
    /// A request completed with a status other than success.
    NetworkError(u16),
    /// A request failed below HTTP; the transport's own description.
    TransportError(String),
    /// One or both of two concurrent requests failed.
    CompositeError(CompositeFailure),
    /// A binary part was given a MIME type that does not parse.
    InvalidMimeType,
    /// A descriptor had neither links nor files to send.
    NothingToSend,
}

} // verus!
