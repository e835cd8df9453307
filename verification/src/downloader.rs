//! Resumable transfer. The caller performs the requests and the file
//! operations; this module decides what to request, which answers to accept,
//! how to open the destination and what progress to report.

use vstd::prelude::*;
use vstd::string::StringExecFns;
use crate::error::{Error, ErrorView};
use crate::models::opt_text;
use crate::text::{decimal, decimal_string, parse_u64, parse_u64_spec, str_chars};

verus! {

/// How far a transfer has come: the bytes present so far and the size of the
/// whole, if it is known.
#[derive(Debug, Clone, Copy, PartialEq, Eq)]
pub struct ProgressInfo {
    pub downloaded: u64,
    pub total: Option<u64>,
}

/// The size that a `Content-Length` header announces. A missing header, or a
/// value that is no unsigned decimal numeral of 64 bits, leaves the size
/// unknown.
pub open spec fn content_length_spec(header: Option<Seq<char>>) -> Option<u64> {
    match header {
        Some(v) => parse_u64_spec(v),
        None => None,
    }
}

/// The total size learnt from the size probe, given the value of its
/// `Content-Length` header, if it had one.
pub fn content_length(header: Option<&str>) -> (total: Option<u64>)
    ensures
        total == content_length_spec(
            match header {
                Some(v) => Some(v@),
                None => None,
            },
        ),
{
    match header {
        Some(v) => {
            let chars = str_chars(v);
            parse_u64(chars.as_slice())
        },
        None => None,
    }
}

/// The value of the `Range` header that asks for everything from `offset` on.
pub open spec fn range_text(offset: nat) -> Seq<char> {
    "bytes="@ + decimal(offset) + "-"@
}

/// The statuses that carry content: the whole of it, or the part asked for.
pub open spec fn status_accepted(code: u16) -> bool {
    code == 200 || code == 206
}

/// Where a transfer stands.
#[derive(Debug, Clone, Copy, PartialEq, Eq, Structural)]
pub enum DownloadPhase {
    /// The request is out and no status has been seen.
    AwaitingResponse,
    /// The body is arriving.
    Streaming,
    /// The body ended without error.
    Finished,
    /// The transfer was given up.
    Failed,
}

/// The state of one transfer.
#[derive(Debug, Clone, Copy, PartialEq, Eq)]
pub struct Download {
    pub phase: DownloadPhase,
    /// The length the destination had when the transfer began.
    pub offset: u64,
    /// The bytes present in the destination now.
    pub downloaded: u64,
    /// The size of the whole, if the probe told it.
    pub total: Option<u64>,
}

/// What the caller observed.
#[derive(Debug, Clone, Copy, PartialEq, Eq)]
pub enum DownloadEvent {
    /// The server answered with this status.
    Response { status: u16 },
    /// A chunk of this many bytes was appended to the destination.
    Chunk { len: u64 },
    /// The body ended.
    End,
}

/// What the caller does next.
#[derive(Debug, Clone, PartialEq, Eq)]
pub enum DownloadAction {
    /// Send the request, with this `Range` header if there is one.
    Request { range: Option<String> },
    /// Open the destination, appending to what is there or creating it
    /// afresh, and read the body.
    Open { append: bool },
    /// Tell the observer how far the transfer has come.
    Report { progress: ProgressInfo },
    /// The transfer is complete.
    Finish,
    /// Give up with this failure.
    Fail { error: Error },
}

/// An action as mathematical text.
pub enum DownloadActionView {
    Request { range: Option<Seq<char>> },
    Open { append: bool },
    Report { progress: ProgressInfo },
    Finish,
    Fail { error: ErrorView },
}

impl View for DownloadAction {
    type V = DownloadActionView;

    open spec fn view(&self) -> DownloadActionView {
        match *self {
            DownloadAction::Request { range } => DownloadActionView::Request {
                range: opt_text(range),
            },
            DownloadAction::Open { append } => DownloadActionView::Open { append },
            DownloadAction::Report { progress } => DownloadActionView::Report { progress },
            DownloadAction::Finish => DownloadActionView::Finish,
            DownloadAction::Fail { error } => DownloadActionView::Fail { error: error@ },
        }
    }
}

/// The offset at which a transfer starts: the length of what the destination
/// already holds, zero if it does not exist.
pub open spec fn resume_offset(existing: Option<u64>) -> u64 {
    match existing {
        Some(n) => n,
        None => 0,
    }
}

/// The state and the request a transfer begins with.
pub open spec fn start_spec(existing: Option<u64>, total: Option<u64>) -> (
    Download,
    DownloadActionView,
) {
    let offset = resume_offset(existing);
    (
        Download { phase: DownloadPhase::AwaitingResponse, offset, downloaded: offset, total },
        DownloadActionView::Request {
            range: if offset > 0 {
                Some(range_text(offset as nat))
            } else {
                None
            },
        },
    )
}

/// The transition of a transfer: the state after `event` and the action it
/// calls for.
pub open spec fn step_spec(state: Download, event: DownloadEvent) -> (Download, DownloadActionView) {
    match (state.phase, event) {
        (DownloadPhase::AwaitingResponse, DownloadEvent::Response { status }) => {
            if status_accepted(status) {
                (
                    Download { phase: DownloadPhase::Streaming, ..state },
                    DownloadActionView::Open { append: state.offset > 0 },
                )
            } else {
                (
                    Download { phase: DownloadPhase::Failed, ..state },
                    DownloadActionView::Fail { error: ErrorView::UnexpectedStatus { code: status } },
                )
            }
        },
        (DownloadPhase::Streaming, DownloadEvent::Chunk { len }) => {
            let downloaded = (state.downloaded + len) as u64;
            (
                Download { downloaded, ..state },
                DownloadActionView::Report {
                    progress: ProgressInfo { downloaded, total: state.total },
                },
            )
        },
        (DownloadPhase::Streaming, DownloadEvent::End) => (
            Download { phase: DownloadPhase::Finished, ..state },
            DownloadActionView::Finish,
        ),
        _ => (
            Download { phase: DownloadPhase::Failed, ..state },
            DownloadActionView::Fail { error: ErrorView::UnexpectedEvent },
        ),
    }
}

impl Download {
    /// Begins a transfer into a destination that holds `existing` bytes
    /// (`None` if it does not exist), for a source whose size the probe gave
    /// as `total`.
    pub fn start(existing: Option<u64>, total: Option<u64>) -> (r: (Download, DownloadAction))
        ensures
            (r.0, r.1@) == start_spec(existing, total),
    {
        let offset: u64 = match existing {
            Some(n) => n,
            None => 0,
        };
        let range = if offset > 0 {
            let n = decimal_string(offset);
            let mut s = String::from_str("bytes=");
            s.append(n.as_str());
            s.append("-");
            Some(s)
        } else {
            None
        };
        (
            Download { phase: DownloadPhase::AwaitingResponse, offset, downloaded: offset, total },
            DownloadAction::Request { range },
        )
    }

    /// Takes one event and says what to do next. An event that the phase
    /// does not await ends the transfer.
    pub fn step(self, event: DownloadEvent) -> (r: (Download, DownloadAction))
        requires
            self.phase == DownloadPhase::Streaming ==> (event matches DownloadEvent::Chunk { len }
                ==> self.downloaded + len <= u64::MAX),
        ensures
            (r.0, r.1@) == step_spec(self, event),
    {
        match (self.phase, event) {
            (DownloadPhase::AwaitingResponse, DownloadEvent::Response { status }) => {
                if status == 200 || status == 206 {
                    (
                        Download { phase: DownloadPhase::Streaming, ..self },
                        DownloadAction::Open { append: self.offset > 0 },
                    )
                } else {
                    (
                        Download { phase: DownloadPhase::Failed, ..self },
                        DownloadAction::Fail { error: Error::UnexpectedStatus { code: status } },
                    )
                }
            },
            (DownloadPhase::Streaming, DownloadEvent::Chunk { len }) => {
                let downloaded: u64 = self.downloaded + len;
                (
                    Download { downloaded, ..self },
                    DownloadAction::Report {
                        progress: ProgressInfo { downloaded, total: self.total },
                    },
                )
            },
            (DownloadPhase::Streaming, DownloadEvent::End) => (
                Download { phase: DownloadPhase::Finished, ..self },
                DownloadAction::Finish,
            ),
            _ => (
                Download { phase: DownloadPhase::Failed, ..self },
                DownloadAction::Fail { error: Error::UnexpectedEvent },
            ),
        }
    }
}

/// What the destination holds after a body was written to it: the body
/// behind what was there when appending, the body alone otherwise.
pub open spec fn file_after(before: Seq<u8>, append: bool, body: Seq<u8>) -> Seq<u8> {
    if append {
        before + body
    } else {
        body
    }
}

/// Resuming restores the source. When the destination holds the first `l`
/// bytes of `source`, the transfer asks for the bytes from `l` on, and once
/// a server that honours the request has sent them and they were written as
/// the transfer says, the destination equals `source` byte for byte.
pub proof fn lemma_resume_restores_source(source: Seq<u8>, l: int, total: Option<u64>)
    requires
        0 <= l <= source.len() <= u64::MAX,
    ensures
        ({
            let existing = if l > 0 {
                Some(l as u64)
            } else {
                None
            };
            let (state, request) = start_spec(existing, total);
            let (streaming, open) = step_spec(state, DownloadEvent::Response { status: 206 });
            &&& state.offset == l
            &&& request == DownloadActionView::Request {
                range: if l > 0 {
                    Some(range_text(l as nat))
                } else {
                    None
                },
            }
            &&& open is Open
            &&& file_after(source.take(l), open->append, source.skip(l)) == source
        }),
{
    assert(source.take(l) + source.skip(l) =~= source);
    assert(source.skip(0) =~= source);
}

} // verus!
