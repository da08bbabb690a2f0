//! Poll-driven fetch state machine for one network resource.
//!
//! A [`DownloadItem`] tracks one URL through `Idle -> InProgress ->
//! Done/Failed`.  Polling never blocks: from `Idle` with an initialized
//! configuration it moves to `InProgress` and returns the [`HttpRequest`] the
//! caller must perform; the caller later reports the outcome through
//! [`DownloadItem::complete`].  Terminal states are repeatable until the
//! caller discards the item.

use vstd::prelude::*;
use crate::request::{HttpRequest, RequestConfig};
use crate::strutil::{dec_of, decimal_string};

verus! {

/// The stored state of one fetch.
pub enum Download {
    /// No request has been started.
    Idle,
    /// A request is outstanding; at most one per resource.
    InProgress,
    /// The request succeeded with these body bytes.
    Done(Vec<u8>),
    /// The request failed; the string captures the status code or transport
    /// error for diagnostics.
    Failed(String),
}

/// The outward classification of a fetch, as reported to callers.
#[derive(Debug)]
pub enum DownloadState {
    /// Polling was refused: the configuration has no endpoint (or there is no
    /// fetch to report on).
    Null,
    /// No request outstanding yet.
    NotStarted,
    /// A request is outstanding; poll again later.
    InProgress,
    /// The request succeeded.
    Done,
    /// The request failed, with diagnostic text.
    Failed(String),
    /// The fetched payload could not be parsed as a card record.
    ParseError,
}

/// The outcome of a performed request, reported back by the caller.
pub enum HttpOutcome {
    /// The transfer itself failed (no HTTP response).
    TransportError,
    /// An HTTP response arrived: whether the status means success, the status
    /// code, and the body bytes.
    Response { ok: bool, status: u16, bytes: Vec<u8> },
}

/// The diagnostic text stored for a failed fetch.
pub open spec fn failure_reason_of(outcome: HttpOutcome) -> Seq<char> {
    match outcome {
        HttpOutcome::TransportError => seq!['E', 'r', 'r', 'o', 'r'],
        HttpOutcome::Response { status, .. } => dec_of(status as nat),
    }
}

/// An element-wise copy of a byte vector.
fn clone_bytes(v: &Vec<u8>) -> (r: Vec<u8>)
    ensures
        r@ == v@,
{
    let mut r: Vec<u8> = Vec::new();
    let n = v.len();
    for i in 0..n
        invariant
            n == v@.len(),
            r@ == v@.take(i as int),
    {
        r.push(v[i]);
        proof {
            assert(v@.take(i as int).push(v@[i as int]) =~= v@.take(i + 1));
        }
    }
    proof {
        assert(v@.take(n as int) =~= v@);
    }
    r
}

/// How one non-blocking poll relates a slot's state before and after the
/// call to the bytes and the request action it returned: terminal states are
/// reported without change, and only an idle slot under an initialized
/// configuration starts a request.
pub open spec fn fetch_poll_post(
    old_it: DownloadItem,
    new_it: DownloadItem,
    cfg: RequestConfig,
    bytes: Option<Vec<u8>>,
    action: Option<HttpRequest>,
) -> bool {
    &&& new_it.url@ == old_it.url@
    &&& (old_it.download matches Download::Done(b) ==> (bytes matches Some(bs) && bs@ == b@
        && new_it.download == old_it.download && action is None))
    &&& (!(old_it.download is Done) ==> bytes is None)
    &&& (!(old_it.download is Idle) ==> new_it.download == old_it.download && action is None)
    &&& (old_it.download is Idle && !cfg.is_initialized_spec() ==> new_it.download
        == old_it.download && action is None)
    &&& (old_it.download is Idle && cfg.is_initialized_spec() ==> new_it.download is InProgress
        && (action matches Some(req) && req.url@ == cfg.request_url_of(old_it.url@)))
}

/// How one non-blocking poll relates a slot's state before and after the
/// call to the detailed result and the request action it returned.
pub open spec fn try_fetch_post(
    old_it: DownloadItem,
    new_it: DownloadItem,
    cfg: RequestConfig,
    polled: Result<Vec<u8>, DownloadState>,
    action: Option<HttpRequest>,
) -> bool {
    &&& new_it.url@ == old_it.url@
    &&& (old_it.download matches Download::Done(b) ==> (polled matches Ok(bytes) && bytes@ == b@
        && new_it.download == old_it.download && action is None))
    &&& (old_it.download matches Download::Failed(m) ==> (polled matches Err(
        DownloadState::Failed(d),
    ) && d@ == m@ && new_it.download == old_it.download && action is None))
    &&& (old_it.download is InProgress ==> (polled matches Err(DownloadState::InProgress)
        && new_it.download == old_it.download && action is None))
    &&& (old_it.download is Idle && !cfg.is_initialized_spec() ==> (polled matches Err(
        DownloadState::Null,
    ) && new_it.download == old_it.download && action is None))
    &&& (old_it.download is Idle && cfg.is_initialized_spec() ==> (polled matches Err(
        DownloadState::InProgress,
    ) && new_it.download is InProgress && (action matches Some(req) && req.url@
        == cfg.request_url_of(old_it.url@) && (cfg.uses_auth() ==> req.auth_header is Some) && (
    !cfg.uses_auth() ==> req.auth_header is None))))
}

/// The state-transition half of [`fetch_poll_post`], for callers that drop
/// the polled bytes and only start fetches.
pub open spec fn fetch_start_post(
    old_it: DownloadItem,
    new_it: DownloadItem,
    cfg: RequestConfig,
    action: Option<HttpRequest>,
) -> bool {
    &&& new_it.url@ == old_it.url@
    &&& (!(old_it.download is Idle) ==> new_it.download == old_it.download && action is None)
    &&& (old_it.download is Idle && !cfg.is_initialized_spec() ==> new_it.download
        == old_it.download && action is None)
    &&& (old_it.download is Idle && cfg.is_initialized_spec() ==> new_it.download is InProgress
        && (action matches Some(req) && req.url@ == cfg.request_url_of(old_it.url@)))
}

/// One network-backed, poll-driven request slot, keyed by its resource URL.
pub struct DownloadItem {
    pub url: String,
    pub download: Download,
}

impl DownloadItem {
    /// A fresh, idle slot for `url`.
    pub fn new(url: &str) -> (r: DownloadItem)
        ensures
            r.url@ == url@,
            r.download is Idle,
    {
        DownloadItem { url: url.to_owned(), download: Download::Idle }
    }

    /// The outward classification of the current state.
    pub fn get_download_state(&self) -> (r: DownloadState)
        ensures
            self.download is Idle ==> r is NotStarted,
            self.download is InProgress ==> r is InProgress,
            self.download is Done ==> r is Done,
            self.download matches Download::Failed(m) ==> (r matches DownloadState::Failed(d)
                && d@ == m@),
    {
        match &self.download {
            Download::Idle => DownloadState::NotStarted,
            Download::InProgress => DownloadState::InProgress,
            Download::Done(_) => DownloadState::Done,
            Download::Failed(m) => DownloadState::Failed(m.clone()),
        }
    }

    /// Non-blocking poll.  A terminal state is reported as is; `Idle` with an
    /// initialized configuration starts a request — reported as `InProgress`,
    /// like any other pending poll — and the returned [`HttpRequest`] is what
    /// the caller must now perform; `Idle` without a configuration is refused
    /// with `Null` and starts nothing.
    pub fn try_fetch_download(&mut self, cfg: &RequestConfig) -> (r: (
        Result<Vec<u8>, DownloadState>,
        Option<HttpRequest>,
    ))
        ensures
            try_fetch_post(*old(self), *final(self), *cfg, r.0, r.1),
    {
        match &self.download {
            Download::Done(b) => (Ok(clone_bytes(b)), None),
            Download::Failed(m) => (Err(DownloadState::Failed(m.clone())), None),
            Download::InProgress => (Err(DownloadState::InProgress), None),
            Download::Idle => {
                if !cfg.is_initialized() {
                    (Err(DownloadState::Null), None)
                } else {
                    let req = cfg.build_request(self.url.as_str());
                    self.download = Download::InProgress;
                    (Err(DownloadState::InProgress), Some(req))
                }
            },
        }
    }

    /// Like [`Self::try_fetch_download`], but reports only whether the bytes
    /// are available, dropping the error detail.
    pub fn fetch_download(&mut self, cfg: &RequestConfig) -> (r: (
        Option<Vec<u8>>,
        Option<HttpRequest>,
    ))
        ensures
            fetch_poll_post(*old(self), *final(self), *cfg, r.0, r.1),
    {
        let (polled, action) = self.try_fetch_download(cfg);
        match polled {
            Ok(bytes) => (Some(bytes), action),
            Err(_) => (None, action),
        }
    }

    /// Records the outcome of the outstanding request: an HTTP success stores
    /// the body as `Done`; anything else becomes `Failed` with the status
    /// code, or `"Error"` when the transfer itself failed.
    pub fn complete(&mut self, outcome: HttpOutcome)
        requires
            old(self).download is InProgress,
        ensures
            final(self).url@ == old(self).url@,
            outcome matches HttpOutcome::Response { ok: true, bytes, .. } ==> (final(self)
                .download matches Download::Done(b) && b@ == bytes@),
            (outcome matches HttpOutcome::Response { ok: false, .. } || outcome
                is TransportError) ==> (final(self).download matches Download::Failed(m) && m@
                == failure_reason_of(outcome)),
    {
        match outcome {
            HttpOutcome::Response { ok: true, status: _, bytes } => {
                self.download = Download::Done(bytes);
            },
            HttpOutcome::Response { ok: false, status, bytes: _ } => {
                self.download = Download::Failed(decimal_string(status));
            },
            HttpOutcome::TransportError => {
                let mut m = String::new();
                crate::text::push_char(&mut m, 'E');
                crate::text::push_char(&mut m, 'r');
                crate::text::push_char(&mut m, 'r');
                crate::text::push_char(&mut m, 'o');
                crate::text::push_char(&mut m, 'r');
                proof {
                    assert(Seq::<char>::empty().push('E').push('r').push('r').push('o').push('r')
                        =~= seq!['E', 'r', 'r', 'o', 'r']);
                }
                self.download = Download::Failed(m);
            },
        }
    }
}

} // verus!
