//! Deciding which requests an addition sends, and combining their outcomes.

use vstd::prelude::*;
use crate::descriptor::{DescriptorModel, TorrentAddDescriptor};
use crate::error::{CompositeFailure, Error};

verus! {

/// Which requests an addition sends.
#[derive(Debug, Clone, Copy, PartialEq, Eq, Structural)]
pub enum SendPlan {
    /// One request, with the links.
    UrlsOnly,
    /// One request, with the local files.
    TorrentFilesOnly,
    /// Two requests sent concurrently, both awaited: one with the files, one
    /// with the links.
    Both,
}

/// How a request ended: with an HTTP status, or with a failure of the
/// transport before any status came back.
#[derive(Debug, Clone)]
pub enum SendOutcome {
    Status(u16),
    Transport(String),
}

/// A success status: 200 to 299.
pub open spec fn is_success_status(code: u16) -> bool {
    200 <= code && code < 300
}

/// Whether a request succeeded: it came back with a success status.
pub open spec fn succeeded(o: SendOutcome) -> bool {
    match o {
        SendOutcome::Status(code) => is_success_status(code),
        SendOutcome::Transport(_) => false,
    }
}

/// The plan for a descriptor, by which of its parts are empty.
pub open spec fn plan_spec(d: DescriptorModel) -> Result<SendPlan, Error> {
    if d.paths.len() == 0 && d.urls.len() == 0 {
        Err(Error::NothingToSend)
    } else if d.paths.len() == 0 {
        Ok(SendPlan::UrlsOnly)
    } else if d.urls.len() == 0 {
        Ok(SendPlan::TorrentFilesOnly)
    } else {
        Ok(SendPlan::Both)
    }
}

/// The result of an addition that sent one request.
pub open spec fn single_spec(o: SendOutcome) -> Result<(), Error> {
    match o {
        SendOutcome::Status(code) => if is_success_status(code) {
            Ok(())
        } else {
            Err(Error::NetworkError(code))
        },
        SendOutcome::Transport(m) => Err(Error::TransportError(m)),
    }
}

/// The result of an addition that sent both requests, by which succeeded.
pub open spec fn reconcile_spec(torrents_ok: bool, urls_ok: bool) -> Result<(), Error> {
    match (torrents_ok, urls_ok) {
        (true, true) => Ok(()),
        (true, false) => Err(Error::CompositeError(CompositeFailure::UrlsFailed)),
        (false, true) => Err(Error::CompositeError(CompositeFailure::TorrentFilesFailed)),
        (false, false) => Err(Error::CompositeError(CompositeFailure::BothFailed)),
    }
}

/// Which requests to send for the descriptor: the links alone when it has no
/// files, the files alone when it has no links, else both. A descriptor with
/// neither cannot be built; it would give `NothingToSend`.
pub fn plan(d: &TorrentAddDescriptor) -> (r: Result<SendPlan, Error>)
    ensures
        r == plan_spec(d@),
        r is Ok,
{
    let no_urls = d.urls().len() == 0;
    let no_paths = d.paths().len() == 0;
    if no_paths && no_urls {
        Err(Error::NothingToSend)
    } else if no_paths {
        Ok(SendPlan::UrlsOnly)
    } else if no_urls {
        Ok(SendPlan::TorrentFilesOnly)
    } else {
        Ok(SendPlan::Both)
    }
}

impl SendOutcome {
    /// Whether the request came back with a success status (200 to 299).
    pub fn is_success(&self) -> (r: bool)
        ensures
            r == succeeded(*self),
    {
        match self {
            SendOutcome::Status(code) => 200 <= *code && *code < 300,
            SendOutcome::Transport(_) => false,
        }
    }
}

/// The result of an addition that sent one request: success on a success
/// status, `NetworkError` with the status otherwise, and `TransportError`
/// when no status came back.
pub fn single_result(o: SendOutcome) -> (r: Result<(), Error>)
    ensures
        r == single_spec(o),
{
    match o {
        SendOutcome::Status(code) => if 200 <= code && code < 300 {
            Ok(())
        } else {
            Err(Error::NetworkError(code))
        },
        SendOutcome::Transport(m) => Err(Error::TransportError(m)),
    }
}

/// Combines the outcomes of the file request and the link request.
pub fn reconcile(torrents_ok: bool, urls_ok: bool) -> (r: Result<(), Error>)
    ensures
        r == reconcile_spec(torrents_ok, urls_ok),
        torrents_ok && urls_ok ==> r is Ok,
        torrents_ok && !urls_ok ==> r == Err::<(), Error>(
            Error::CompositeError(CompositeFailure::UrlsFailed),
        ),
        !torrents_ok && urls_ok ==> r == Err::<(), Error>(
            Error::CompositeError(CompositeFailure::TorrentFilesFailed),
        ),
        !torrents_ok && !urls_ok ==> r == Err::<(), Error>(
            Error::CompositeError(CompositeFailure::BothFailed),
        ),
{
    match (torrents_ok, urls_ok) {
        (true, true) => Ok(()),
        (true, false) => Err(Error::CompositeError(CompositeFailure::UrlsFailed)),
        (false, true) => Err(Error::CompositeError(CompositeFailure::TorrentFilesFailed)),
        (false, false) => Err(Error::CompositeError(CompositeFailure::BothFailed)),
    }
}

/// The result of an addition that sent both requests, once both have ended:
/// a transport failure counts as a failure of its half, like a status other
/// than success.
pub fn pair_result(torrents: &SendOutcome, urls: &SendOutcome) -> (r: Result<(), Error>)
    ensures
        r == reconcile_spec(succeeded(*torrents), succeeded(*urls)),
{
    reconcile(torrents.is_success(), urls.is_success())
}

} // verus!
