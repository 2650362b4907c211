//! The transport over the standard input and output of a child process:
//! one message per line.
//!
//! The streams themselves belong to whoever runs the process. What is here
//! is everything that is decided about them: what a request looks like on
//! the wire, what each line that comes back means, and when the transport is
//! closed for good.

use crate::bridge::error::BridgeError;
use crate::bridge::rpc::types::{
    request_text, response_of_json, RpcRequest, RpcResponse, RpcResponseView,
};
use crate::json::JsonError;
use crate::text::{chars_of, is_single_line, string_of, trim_bounds, trimmed};
use vstd::prelude::*;

verus! {

/// How long a response is waited for unless the caller says otherwise, in
/// milliseconds.
pub const DEFAULT_TIMEOUT_MS: u64 = 30_000;

/// What one line from the peer means.
#[derive(Debug)]
pub enum LineVerdict {
    /// Nothing but whitespace: skipped.
    Blank,
    /// Output of the peer that is no message: skipped, and worth a note in
    /// the log. The line is kept without the whitespace around it.
    Stray(String),
    /// A response.
    Response(RpcResponse),
    /// A line that starts like JSON and is no response.
    Malformed(JsonError),
}

/// Mathematical form of [`LineVerdict`].
pub enum LineVerdictView {
    Blank,
    Stray(Seq<char>),
    Response(RpcResponseView),
    Malformed,
}

impl View for LineVerdict {
    type V = LineVerdictView;

    open spec fn view(&self) -> LineVerdictView {
        match self {
            LineVerdict::Blank => LineVerdictView::Blank,
            LineVerdict::Stray(s) => LineVerdictView::Stray(s@),
            LineVerdict::Response(r) => LineVerdictView::Response(r@),
            LineVerdict::Malformed(_) => LineVerdictView::Malformed,
        }
    }
}

/// What the line `line` means: blank if trimming leaves nothing, stray if
/// what is left does not start with `{`, else the response that it stands
/// for, or malformed.
pub open spec fn verdict_of(line: Seq<char>) -> LineVerdictView {
    let t = trimmed(line);
    if t.len() == 0 {
        LineVerdictView::Blank
    } else if t[0] != '{' {
        LineVerdictView::Stray(t)
    } else {
        match response_of_json(t) {
            Some(r) => LineVerdictView::Response(r),
            None => LineVerdictView::Malformed,
        }
    }
}

/// Whether a line is passed over.
pub open spec fn is_skipped(line: Seq<char>) -> bool {
    verdict_of(line) is Blank || verdict_of(line) is Stray
}

/// Says what one line from the peer means.
pub fn classify_line(line: &str) -> (v: LineVerdict)
    ensures
        v@ == verdict_of(line@),
{
    let chars = chars_of(line);
    let (start, end) = trim_bounds(&chars);
    if start == end {
        return LineVerdict::Blank;
    }
    let t = string_of(&chars, start, end);
    if chars[start] != '{' {
        return LineVerdict::Stray(t);
    }
    match RpcResponse::from_json_str(t.as_str()) {
        Ok(r) => LineVerdict::Response(r),
        Err(e) => LineVerdict::Malformed(e),
    }
}

/// What one read from the stream of the peer gave.
#[derive(Debug)]
pub enum ReadEvent {
    /// A line.
    Line(String),
    /// The stream has ended.
    EndOfStream,
    /// The read failed, for the reason given.
    Failed(String),
}

/// What the reader does after a read.
#[derive(Debug)]
pub enum ReaderStep {
    /// Read the next line. Where the line was stray output, it comes along
    /// to be logged.
    Skip { stray: Option<String> },
    /// Stop, with this outcome.
    Finished(Result<RpcResponse, BridgeError>),
}

/// The context of the error for a failed read.
pub open spec fn read_context() -> Seq<char> {
    "Failed to read JSON-RPC response from process stdout"@
}

/// The context of the error for a failed write.
pub open spec fn write_context() -> Seq<char> {
    "Failed to write JSON-RPC request to process stdin"@
}

/// The context of the error for a failed flush.
pub open spec fn flush_context() -> Seq<char> {
    "Failed to flush process stdin after writing request"@
}

/// Decides what the reader does after a read. Blank and stray lines are
/// passed over. A response ends the reading, and so does everything that
/// cannot be one: a malformed line, the end of the stream, a failed read.
pub fn on_read(event: ReadEvent) -> (step: ReaderStep)
    ensures
        step is Skip <==> (event matches ReadEvent::Line(line) && is_skipped(line@)),
        match event {
            ReadEvent::Line(line) => match verdict_of(line@) {
                LineVerdictView::Blank => step matches ReaderStep::Skip { stray } && stray is None,
                LineVerdictView::Stray(t) => step matches ReaderStep::Skip { stray: Some(s) } && s@
                    == t,
                LineVerdictView::Response(r) => step matches ReaderStep::Finished(Ok(resp))
                    && resp@ == r,
                LineVerdictView::Malformed => step matches ReaderStep::Finished(
                    Err(BridgeError::JsonParseError(_)),
                ),
            },
            ReadEvent::EndOfStream => step matches ReaderStep::Finished(
                Err(BridgeError::TransportClosed),
            ),
            ReadEvent::Failed(cause) => step matches ReaderStep::Finished(
                Err(BridgeError::IoError { context, source }),
            ) && context@ == read_context() && source == cause,
        },
{
    match event {
        ReadEvent::Line(line) => match classify_line(line.as_str()) {
            LineVerdict::Blank => ReaderStep::Skip { stray: None },
            LineVerdict::Stray(t) => ReaderStep::Skip { stray: Some(t) },
            LineVerdict::Response(r) => ReaderStep::Finished(Ok(r)),
            LineVerdict::Malformed(e) => ReaderStep::Finished(
                Err(BridgeError::JsonParseError(e.message)),
            ),
        },
        ReadEvent::EndOfStream => ReaderStep::Finished(Err(BridgeError::TransportClosed)),
        ReadEvent::Failed(cause) => ReaderStep::Finished(
            Err(
                BridgeError::IoError {
                    context: String::from_str("Failed to read JSON-RPC response from process stdout"),
                    source: cause,
                },
            ),
        ),
    }
}

/// Index of the first line of `lines`, at or after `from`, that is not
/// passed over; the number of lines if there is none.
pub open spec fn first_decisive(lines: Seq<Seq<char>>, from: int) -> int
    decreases lines.len() - from,
{
    if 0 <= from < lines.len() && is_skipped(lines[from]) {
        first_decisive(lines, from + 1)
    } else {
        from
    }
}

/// The lines as texts.
pub open spec fn lines_view(lines: Seq<String>) -> Seq<Seq<char>> {
    lines.map_values(|l: String| l@)
}

/// Where [`first_decisive`] lies, and that every line before it is passed
/// over.
pub proof fn lemma_first_decisive(lines: Seq<Seq<char>>, from: int)
    requires
        0 <= from <= lines.len(),
    ensures
        from <= first_decisive(lines, from) <= lines.len(),
        forall|k: int| from <= k < first_decisive(lines, from) ==> is_skipped(#[trigger] lines[k]),
        first_decisive(lines, from) < lines.len() ==> !is_skipped(
            lines[first_decisive(lines, from)],
        ),
    decreases lines.len() - from,
{
    if from < lines.len() && is_skipped(lines[from]) {
        lemma_first_decisive(lines, from + 1);
    }
}

/// Receives from a stream that holds the lines `lines` and then ends.
/// Returns how many lines were read and what came of it: the response on
/// the first line that is not passed over; a parse error if that line is
/// malformed; "transport closed" if every line is passed over.
pub fn receive_from_lines(lines: &Vec<String>) -> (r: (usize, Result<RpcResponse, BridgeError>))
    ensures
        ({
            let all = lines_view(lines@);
            let k = first_decisive(all, 0);
            if k == all.len() {
                &&& r.0 == lines.len()
                &&& r.1 matches Err(BridgeError::TransportClosed)
            } else {
                &&& r.0 == k + 1
                &&& match verdict_of(all[k]) {
                    LineVerdictView::Response(resp) => r.1 matches Ok(got) && got@ == resp,
                    _ => r.1 matches Err(BridgeError::JsonParseError(_)),
                }
            }
        }),
{
    let ghost all = lines_view(lines@);
    let mut i: usize = 0;
    while i < lines.len()
        invariant
            i <= lines.len(),
            all == lines_view(lines@),
            first_decisive(all, 0) == first_decisive(all, i as int),
        decreases lines.len() - i,
    {
        assert(all[i as int] == lines@[i as int]@);
        match classify_line(lines[i].as_str()) {
            LineVerdict::Blank => {},
            LineVerdict::Stray(_) => {},
            LineVerdict::Response(resp) => {
                return (i + 1, Ok(resp));
            },
            LineVerdict::Malformed(e) => {
                return (i + 1, Err(BridgeError::JsonParseError(e.message)));
            },
        }
        i += 1;
    }
    (i, Err(BridgeError::TransportClosed))
}

/// How a wait for the reader ended.
#[derive(Debug)]
pub enum WaitResult {
    /// The reader finished with this outcome.
    Delivered(Result<RpcResponse, BridgeError>),
    /// The time ran out first.
    TimedOut,
    /// The reader went away without an outcome.
    Disconnected,
}

/// The state of a transport over the streams of a child process.
#[derive(Debug)]
pub struct StdioTransport {
    closed: bool,
    timeout_ms: u64,
}

impl StdioTransport {
    /// Whether the transport is closed.
    pub closed spec fn closed(&self) -> bool {
        self.closed
    }

    /// How long a response is waited for, in milliseconds.
    pub closed spec fn timeout(&self) -> u64 {
        self.timeout_ms
    }

    /// An open transport with the default timeout.
    pub fn new() -> (t: StdioTransport)
        ensures
            !t.closed(),
            t.timeout() == DEFAULT_TIMEOUT_MS,
    {
        StdioTransport { closed: false, timeout_ms: DEFAULT_TIMEOUT_MS }
    }

    /// The same transport with another timeout.
    pub fn with_timeout(self, timeout_ms: u64) -> (t: StdioTransport)
        ensures
            t.closed() == self.closed(),
            t.timeout() == timeout_ms,
    {
        StdioTransport { closed: self.closed, timeout_ms }
    }

    /// How long a response is waited for, in milliseconds.
    pub fn timeout_ms(&self) -> (ms: u64)
        ensures
            ms == self.timeout(),
    {
        self.timeout_ms
    }

    /// Whether the transport is closed.
    pub fn is_closed(&self) -> (b: bool)
        ensures
            b == self.closed(),
    {
        self.closed
    }

    /// Closes the transport. It stays closed.
    pub fn close(&mut self) -> (r: Result<(), BridgeError>)
        ensures
            r is Ok,
            final(self).closed(),
            final(self).timeout() == old(self).timeout(),
    {
        self.closed = true;
        Ok(())
    }

    /// What is written to the peer for `message`: its line of JSON and the
    /// line break. Nothing is written on a closed transport.
    pub fn frame(&self, message: &RpcRequest) -> (r: Result<String, BridgeError>)
        ensures
            self.closed() ==> r matches Err(BridgeError::TransportClosed),
            !self.closed() ==> (r matches Ok(line) && line@ == request_text(
                message.jsonrpc@,
                message.id@,
                message.method@,
                message.params@,
            ) + "\n"@),
            !self.closed() && is_single_line(message.params@) ==> (r matches Ok(line)
                && line@.len() > 0 && line@.last() == '\n' && is_single_line(line@.drop_last())),
    {
        if self.closed {
            return Err(BridgeError::TransportClosed);
        }
        match message.to_json_string() {
            Ok(mut line) => {
                proof {
                    reveal_strlit("\n");
                    assert((line@ + "\n"@).drop_last() == line@);
                }
                line.append("\n");
                Ok(line)
            },
            Err(e) => Err(BridgeError::JsonParseError(e.message)),
        }
    }

    /// The error for a write to the peer that failed.
    pub fn write_failed(cause: String) -> (e: BridgeError)
        ensures
            e matches BridgeError::IoError { context, source } && context@ == write_context()
                && source == cause,
    {
        BridgeError::IoError {
            context: String::from_str("Failed to write JSON-RPC request to process stdin"),
            source: cause,
        }
    }

    /// The error for a flush of the stream to the peer that failed.
    pub fn flush_failed(cause: String) -> (e: BridgeError)
        ensures
            e matches BridgeError::IoError { context, source } && context@ == flush_context()
                && source == cause,
    {
        BridgeError::IoError {
            context: String::from_str("Failed to flush process stdin after writing request"),
            source: cause,
        }
    }

    /// Whether a receive may start: not on a closed transport.
    pub fn begin_receive(&self) -> (r: Result<(), BridgeError>)
        ensures
            self.closed() ==> r matches Err(BridgeError::TransportClosed),
            !self.closed() ==> r is Ok,
    {
        if self.closed {
            Err(BridgeError::TransportClosed)
        } else {
            Ok(())
        }
    }

    /// Receives one response. `wait` waits for the reader, for no longer
    /// than the number of milliseconds that it is given, and says how the
    /// wait ended.
    ///
    /// On a closed transport nothing is waited for, and the answer is
    /// "transport closed". Else `wait` is called once with the timeout of
    /// the transport, and what it says is dealt with as
    /// [`StdioTransport::complete_receive`] does: only a response leaves the
    /// transport open, and a wait that ran out of time is a timeout error
    /// that names the timeout.
    pub fn receive<W: FnOnce(u64) -> WaitResult>(&mut self, wait: W) -> (r: Result<
        RpcResponse,
        BridgeError,
    >)
        requires
            call_requires(wait, (old(self).timeout(),)),
        ensures
            final(self).timeout() == old(self).timeout(),
            old(self).closed() ==> final(self).closed() && r matches Err(
                BridgeError::TransportClosed,
            ),
            !old(self).closed() ==> exists|outcome: WaitResult|
                {
                    &&& #[trigger] call_ensures(wait, (old(self).timeout(),), outcome)
                    &&& final(self).closed() == !(outcome matches WaitResult::Delivered(Ok(_)))
                    &&& match outcome {
                        WaitResult::Delivered(delivered) => r == delivered,
                        WaitResult::TimedOut => r matches Err(BridgeError::Timeout(ms)) && ms
                            == old(self).timeout(),
                        WaitResult::Disconnected => r matches Err(BridgeError::TransportClosed),
                    }
                },
    {
        if self.closed {
            return Err(BridgeError::TransportClosed);
        }
        let outcome = wait(self.timeout_ms);
        self.complete_receive(outcome)
    }

    /// Ends a receive. A response is handed on and the transport stays as it
    /// is. Everything else closes the transport: an error of the reader is
    /// handed on, running out of time is a timeout error that names the
    /// timeout, and a reader that went away means "transport closed".
    pub fn complete_receive(&mut self, wait: WaitResult) -> (r: Result<RpcResponse, BridgeError>)
        ensures
            final(self).timeout() == old(self).timeout(),
            final(self).closed() == (old(self).closed() || !(wait matches WaitResult::Delivered(
                Ok(_),
            ))),
            match wait {
                WaitResult::Delivered(outcome) => r == outcome,
                WaitResult::TimedOut => r matches Err(BridgeError::Timeout(ms)) && ms == old(
                    self,
                ).timeout(),
                WaitResult::Disconnected => r matches Err(BridgeError::TransportClosed),
            },
    {
        match wait {
            WaitResult::Delivered(Ok(response)) => Ok(response),
            WaitResult::Delivered(Err(e)) => {
                self.closed = true;
                Err(e)
            },
            WaitResult::TimedOut => {
                self.closed = true;
                Err(BridgeError::Timeout(self.timeout_ms))
            },
            WaitResult::Disconnected => {
                self.closed = true;
                Err(BridgeError::TransportClosed)
            },
        }
    }
}

} // verus!
