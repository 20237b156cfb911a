//! Log streaming: the entry model, the two forwarding-loop decisions,
//! and the subscribing consumer with its line buffer.
//!
//! The stream itself lives outside this crate. A producer loop drains
//! the server stream into a queue; a consumer loop polls that queue and
//! delivers entries as events. Both loops take every decision through
//! the verified step functions here.

use vstd::prelude::*;
use vstd::seq_lib::*;
use vstd::string::StrSliceExecFns;
use crate::daemon::DaemonEvent;

verus! {

/// How long the consumer loop yields when the queue is empty, in
/// milliseconds.
pub const DRAIN_SLEEP_MS: u64 = 10;

/// Default number of trailing log entries requested on subscription.
pub const DEFAULT_LOG_TAIL: u32 = 100;

/// Lines kept in a viewer's buffer before the oldest are dropped.
pub const MAX_LOG_LINES: usize = 10000;

/// One log entry as the stream delivers it, already decoded to text.
#[derive(Debug, Clone)]
pub struct LogEntry {
    /// Log payload.
    pub content: String,
    /// Stream name: "stdout" or "stderr".
    pub stream: String,
    /// Unix timestamp in nanoseconds.
    pub timestamp: i64,
}

/// What the producer loop does with one stream item: a received entry
/// is forwarded into the queue; an error or the end of the stream stops
/// the loop.
#[derive(Debug)]
pub enum StreamStep {
    Forward(LogEntry),
    Stop,
}

/// Decides the producer loop's step for one stream item.
pub fn stream_step(item: Option<Result<LogEntry, String>>) -> (r: StreamStep)
    ensures
        item matches Some(Ok(e)) ==> r matches StreamStep::Forward(f) && f == e,
        item matches Some(Err(_)) ==> r is Stop,
        item is None ==> r is Stop,
{
    match item {
        Some(Ok(e)) => StreamStep::Forward(e),
        Some(Err(_)) => StreamStep::Stop,
        None => StreamStep::Stop,
    }
}

/// What the consumer loop saw when it polled the queue.
#[derive(Debug)]
pub enum QueuePoll {
    /// An entry was waiting.
    Item(LogEntry),
    /// Nothing waiting, producer still alive.
    Empty,
    /// The producer side is closed and drained.
    Closed,
}

/// What the consumer loop does next: deliver the entry as an event,
/// yield for `DRAIN_SLEEP_MS` and retry, or exit.
#[derive(Debug)]
pub enum DrainStep {
    Deliver(LogEntry),
    Sleep,
    Exit,
}

/// Decides the consumer loop's step for one queue poll. A closed queue
/// ends the loop, so a finished stream stops delivering events.
pub fn drain_step(poll: QueuePoll) -> (r: DrainStep)
    ensures
        poll matches QueuePoll::Item(e) ==> r matches DrainStep::Deliver(d) && d == e,
        poll is Empty ==> r is Sleep,
        poll is Closed ==> r is Exit,
{
    match poll {
        QueuePoll::Item(e) => DrainStep::Deliver(e),
        QueuePoll::Empty => DrainStep::Sleep,
        QueuePoll::Closed => DrainStep::Exit,
    }
}

/// A single buffered log line with metadata.
#[derive(Debug, Clone)]
pub struct LogLine {
    /// Log content.
    pub content: String,
    /// Stream name: "stdout" or "stderr".
    pub stream: String,
    /// Unix timestamp in nanoseconds.
    pub timestamp: i64,
}

/// The abstract value of a buffered log line.
pub struct LogLineView {
    pub content: Seq<char>,
    pub stream: Seq<char>,
    pub timestamp: int,
}

impl View for LogLine {
    type V = LogLineView;

    open spec fn view(&self) -> LogLineView {
        LogLineView { content: self.content@, stream: self.stream@, timestamp: self.timestamp as int }
    }
}

/// The abstract values of a line buffer.
pub open spec fn lines_view(s: Seq<LogLine>) -> Seq<LogLineView> {
    s.map_values(|l: LogLine| l@)
}

/// Index of the first newline in `s`, or `-1` when there is none.
pub open spec fn first_newline(s: Seq<char>) -> int
    decreases s.len(),
{
    if s.len() == 0 {
        -1
    } else if s[0] == '\n' {
        0
    } else {
        let r = first_newline(s.drop_first());
        if r < 0 {
            -1
        } else {
            r + 1
        }
    }
}

/// The segments of `s` between newline characters; one more segment
/// than there are newlines.
pub open spec fn spec_split_newlines(s: Seq<char>) -> Seq<Seq<char>>
    decreases s.len(),
{
    let i = first_newline(s);
    if i < 0 || i >= s.len() {
        seq![s]
    } else {
        seq![s.take(i)] + spec_split_newlines(s.skip(i + 1))
    }
}

/// A segment with one trailing carriage return removed, as a line
/// ending of either kind leaves it.
pub open spec fn strip_cr(s: Seq<char>) -> Seq<char> {
    if s.len() > 0 && s.last() == '\r' {
        s.drop_last()
    } else {
        s
    }
}

/// The segments that are kept: each with a trailing carriage return
/// removed, and those left empty dropped.
pub open spec fn spec_kept_segments(segs: Seq<Seq<char>>) -> Seq<Seq<char>>
    decreases segs.len(),
{
    if segs.len() == 0 {
        Seq::empty()
    } else {
        let rest = spec_kept_segments(segs.drop_last());
        let last = strip_cr(segs.last());
        if last.len() > 0 {
            rest.push(last)
        } else {
            rest
        }
    }
}

/// The non-empty lines of a log payload: split at newlines, trailing
/// carriage returns removed, empty lines dropped.
pub open spec fn spec_log_lines(s: Seq<char>) -> Seq<Seq<char>> {
    spec_kept_segments(spec_split_newlines(s))
}

/// Log lines as buffered views, all with one stream and timestamp.
pub open spec fn spec_line_views(segs: Seq<Seq<char>>, stream: Seq<char>, timestamp: int) -> Seq<
    LogLineView,
> {
    Seq::new(segs.len(), |i: int| LogLineView { content: segs[i], stream, timestamp })
}

/// A line buffer after one entry was ingested: the entry's non-empty
/// lines appended, then the front trimmed to `max` lines.
pub open spec fn spec_ingest(
    lines: Seq<LogLineView>,
    content: Seq<char>,
    stream: Seq<char>,
    timestamp: int,
    max: int,
) -> Seq<LogLineView> {
    let all = lines + spec_line_views(spec_log_lines(content), stream, timestamp);
    if all.len() > max {
        all.skip(all.len() - max)
    } else {
        all
    }
}

/// `first_newline` finds the newline a scan found first.
proof fn lemma_first_newline_at(s: Seq<char>, j: int)
    requires
        0 <= j < s.len(),
        s[j] == '\n',
        forall|t: int| 0 <= t < j ==> s[t] != '\n',
    ensures
        first_newline(s) == j,
    decreases j,
{
    if j > 0 {
        assert(forall|t: int| 0 <= t < j - 1 ==> s.drop_first()[t] == s[t + 1] && s[t + 1] != '\n');
        lemma_first_newline_at(s.drop_first(), j - 1);
    }
}

/// `first_newline` is negative exactly on newline-free text.
proof fn lemma_first_newline_none(s: Seq<char>)
    requires
        forall|t: int| 0 <= t < s.len() ==> s[t] != '\n',
    ensures
        first_newline(s) == -1,
    decreases s.len(),
{
    if s.len() > 0 {
        assert(forall|t: int|
            0 <= t < s.drop_first().len() ==> s.drop_first()[t] == s[t + 1] && s[t + 1] != '\n');
        lemma_first_newline_none(s.drop_first());
    }
}

/// Splits text at newline characters.
fn split_newlines(s: &str) -> (r: Vec<String>)
    ensures
        r@.len() == spec_split_newlines(s@).len(),
        forall|i: int| 0 <= i < r@.len() ==> r@[i]@ == #[trigger] spec_split_newlines(s@)[i],
{
    let mut segs: Vec<String> = Vec::new();
    let mut rest: &str = s;
    loop
        invariant_except_break
            spec_split_newlines(s@) =~= segs@.map_values(|x: String| x@) + spec_split_newlines(
                rest@,
            ),
        ensures
            spec_split_newlines(s@) =~= segs@.map_values(|x: String| x@),
        decreases rest@.len(),
    {
        let n = rest.unicode_len();
        let mut j: usize = 0;
        let mut found = false;
        while !found && j < n
            invariant
                n == rest@.len(),
                j <= n,
                forall|t: int| 0 <= t < j ==> rest@[t] != '\n',
                found ==> j < n && rest@[j as int] == '\n',
            decreases n - j + (if found {
                0int
            } else {
                1int
            }),
        {
            if rest.get_char(j) == '\n' {
                found = true;
            } else {
                j = j + 1;
            }
        }
        if !found {
            proof {
                lemma_first_newline_none(rest@);
            }
            let seg = rest.to_owned();
            proof {
                assert((segs@.push(seg)).map_values(|x: String| x@) =~= segs@.map_values(
                    |x: String| x@,
                ).push(rest@));
            }
            segs.push(seg);
            proof {
                assert(spec_split_newlines(s@) =~= segs@.map_values(|x: String| x@));
            }
            break;
        }
        proof {
            lemma_first_newline_at(rest@, j as int);
        }
        let seg = rest.substring_char(0, j).to_owned();
        let tail = rest.substring_char(j + 1, n);
        proof {
            assert(seg@ =~= rest@.take(j as int));
            assert(tail@ =~= rest@.skip(j + 1));
            assert((segs@.push(seg)).map_values(|x: String| x@) =~= segs@.map_values(
                |x: String| x@,
            ).push(seg@));
        }
        segs.push(seg);
        rest = tail;
    }
    proof {
        let sv = segs@.map_values(|x: String| x@);
        assert(forall|i: int| 0 <= i < segs@.len() ==> segs@[i]@ == #[trigger] sv[i]);
    }
    segs
}

/// A segment with one trailing carriage return removed.
fn strip_cr_exec(seg: String) -> (r: String)
    ensures
        r@ == strip_cr(seg@),
{
    let n = seg.as_str().unicode_len();
    if n > 0 && seg.as_str().get_char(n - 1) == '\r' {
        let r = seg.as_str().substring_char(0, n - 1).to_owned();
        proof {
            assert(r@ =~= seg@.drop_last());
        }
        r
    } else {
        seg
    }
}

/// A request to subscribe to a container's log stream.
#[derive(Debug)]
pub struct SubscribeRequest {
    pub container_id: String,
    pub follow: bool,
    pub tail: Option<u32>,
}

/// The abstract state of a `LogViewer`.
pub struct LogViewerView {
    pub container_id: String,
    pub lines: Seq<LogLine>,
    pub follow: bool,
    pub show_timestamps: bool,
    pub subscribed: bool,
    pub max_lines: usize,
}

/// The log-viewing consumer: buffers the lines of one container's
/// stream and owns the subscribed flag that keeps subscription
/// idempotent.
pub struct LogViewer {
    /// Container whose logs are viewed.
    container_id: String,
    /// Buffered lines, oldest first.
    lines: Vec<LogLine>,
    /// Whether to auto-scroll to the bottom.
    follow: bool,
    /// Whether to show timestamps.
    show_timestamps: bool,
    /// Whether logs have been requested.
    subscribed: bool,
    /// Maximum lines kept in the buffer.
    max_lines: usize,
}

impl View for LogViewer {
    type V = LogViewerView;

    closed spec fn view(&self) -> LogViewerView {
        LogViewerView {
            container_id: self.container_id,
            lines: self.lines@,
            follow: self.follow,
            show_timestamps: self.show_timestamps,
            subscribed: self.subscribed,
            max_lines: self.max_lines,
        }
    }
}

impl LogViewer {
    /// A fresh viewer for one container, not yet subscribed.
    pub fn new(container_id: String) -> (r: LogViewer)
        ensures
            r@.container_id == container_id,
            r@.lines.len() == 0,
            r@.follow,
            r@.show_timestamps,
            !r@.subscribed,
            r@.max_lines == MAX_LOG_LINES,
    {
        LogViewer {
            container_id,
            lines: Vec::new(),
            follow: true,
            show_timestamps: true,
            subscribed: false,
            max_lines: MAX_LOG_LINES,
        }
    }

    /// The buffered lines, oldest first.
    pub fn lines(&self) -> (r: &Vec<LogLine>)
        ensures
            r@ == self@.lines,
    {
        &self.lines
    }

    /// Whether a subscription was already requested.
    pub fn subscribed(&self) -> (r: bool)
        ensures
            r == self@.subscribed,
    {
        self.subscribed
    }

    /// Whether auto-scroll is on.
    pub fn follow(&self) -> (r: bool)
        ensures
            r == self@.follow,
    {
        self.follow
    }

    /// Whether timestamps are shown.
    pub fn show_timestamps(&self) -> (r: bool)
        ensures
            r == self@.show_timestamps,
    {
        self.show_timestamps
    }

    /// Requests the log subscription once: the first call yields the
    /// request to dispatch and sets the flag; any further call changes
    /// nothing and yields nothing, so no second forwarding loop can
    /// arise.
    pub fn subscribe(&mut self) -> (r: Option<SubscribeRequest>)
        ensures
            old(self)@.subscribed ==> final(self)@ == old(self)@ && r is None,
            !old(self)@.subscribed ==> ({
                &&& final(self)@.subscribed
                &&& final(self)@.container_id == old(self)@.container_id
                &&& final(self)@.lines == old(self)@.lines
                &&& final(self)@.follow == old(self)@.follow
                &&& final(self)@.show_timestamps == old(self)@.show_timestamps
                &&& final(self)@.max_lines == old(self)@.max_lines
                &&& r matches Some(q) && q.container_id == old(self)@.container_id && q.follow
                    && q.tail == Some(DEFAULT_LOG_TAIL)
            }),
    {
        if self.subscribed {
            return None;
        }
        self.subscribed = true;
        Some(
            SubscribeRequest {
                container_id: self.container_id.clone(),
                follow: true,
                tail: Some(DEFAULT_LOG_TAIL),
            },
        )
    }

    /// Clears all buffered lines.
    pub fn clear(&mut self)
        ensures
            final(self)@.lines.len() == 0,
            final(self)@.container_id == old(self)@.container_id,
            final(self)@.follow == old(self)@.follow,
            final(self)@.show_timestamps == old(self)@.show_timestamps,
            final(self)@.subscribed == old(self)@.subscribed,
            final(self)@.max_lines == old(self)@.max_lines,
    {
        self.lines = Vec::new();
    }

    /// Toggles auto-scroll.
    pub fn toggle_follow(&mut self)
        ensures
            final(self)@.follow == !old(self)@.follow,
            final(self)@.container_id == old(self)@.container_id,
            final(self)@.lines == old(self)@.lines,
            final(self)@.show_timestamps == old(self)@.show_timestamps,
            final(self)@.subscribed == old(self)@.subscribed,
            final(self)@.max_lines == old(self)@.max_lines,
    {
        self.follow = !self.follow;
    }

    /// Toggles timestamp display.
    pub fn toggle_timestamps(&mut self)
        ensures
            final(self)@.show_timestamps == !old(self)@.show_timestamps,
            final(self)@.container_id == old(self)@.container_id,
            final(self)@.lines == old(self)@.lines,
            final(self)@.follow == old(self)@.follow,
            final(self)@.subscribed == old(self)@.subscribed,
            final(self)@.max_lines == old(self)@.max_lines,
    {
        self.show_timestamps = !self.show_timestamps;
    }

    /// Ingests one delivered event: an entry for this container has its
    /// non-empty lines appended (split at newlines, trailing carriage
    /// returns removed) and the buffer trimmed from the front to
    /// `max_lines`; anything else changes nothing.
    pub fn on_daemon_event(&mut self, event: DaemonEvent)
        ensures
            (event matches DaemonEvent::LogsReceived { container_id, entry } && container_id@
                == old(self)@.container_id@) ==> ({
                &&& lines_view(final(self)@.lines) == spec_ingest(
                    lines_view(old(self)@.lines),
                    (event->LogsReceived_entry).content@,
                    (event->LogsReceived_entry).stream@,
                    (event->LogsReceived_entry).timestamp as int,
                    old(self)@.max_lines as int,
                )
                &&& final(self)@.container_id == old(self)@.container_id
                &&& final(self)@.follow == old(self)@.follow
                &&& final(self)@.show_timestamps == old(self)@.show_timestamps
                &&& final(self)@.subscribed == old(self)@.subscribed
                &&& final(self)@.max_lines == old(self)@.max_lines
            }),
            !(event matches DaemonEvent::LogsReceived { container_id, entry } && container_id@
                == old(self)@.container_id@) ==> final(self)@ == old(self)@,
    {
        match event {
            DaemonEvent::LogsReceived { container_id, entry } => {
                if String::eq(&container_id, &self.container_id) {
                    self.ingest(entry);
                }
            },
            _ => {},
        }
    }

    /// Appends an entry's non-empty lines and trims the buffer.
    fn ingest(&mut self, entry: LogEntry)
        ensures
            lines_view(final(self)@.lines) == spec_ingest(
                lines_view(old(self)@.lines),
                entry.content@,
                entry.stream@,
                entry.timestamp as int,
                old(self)@.max_lines as int,
            ),
            final(self)@.container_id == old(self)@.container_id,
            final(self)@.follow == old(self)@.follow,
            final(self)@.show_timestamps == old(self)@.show_timestamps,
            final(self)@.subscribed == old(self)@.subscribed,
            final(self)@.max_lines == old(self)@.max_lines,
    {
        let ghost old_lines = lines_view(self.lines@);
        let ghost stream_v = entry.stream@;
        let ghost ts = entry.timestamp as int;
        let segs = split_newlines(entry.content.as_str());
        let ghost seg_views = spec_split_newlines(entry.content@);
        let mut k: usize = 0;
        proof {
            assert(lines_view(self.lines@) =~= old_lines + spec_line_views(
                spec_kept_segments(seg_views.take(0int)),
                stream_v,
                ts,
            ));
        }
        while k < segs.len()
            invariant
                stream_v == entry.stream@,
                ts == entry.timestamp as int,
                segs@.len() == seg_views.len(),
                forall|i: int| 0 <= i < segs@.len() ==> segs@[i]@ == #[trigger] seg_views[i],
                k <= segs@.len(),
                lines_view(self.lines@) =~= old_lines + spec_line_views(
                    spec_kept_segments(seg_views.take(k as int)),
                    stream_v,
                    ts,
                ),
                self@.container_id == old(self)@.container_id,
                self@.follow == old(self)@.follow,
                self@.show_timestamps == old(self)@.show_timestamps,
                self@.subscribed == old(self)@.subscribed,
                self@.max_lines == old(self)@.max_lines,
            decreases segs@.len() - k,
        {
            proof {
                let t = seg_views.take(k + 1);
                assert(t.drop_last() =~= seg_views.take(k as int));
                assert(t.last() == seg_views[k as int]);
            }
            let line = strip_cr_exec(segs[k].clone());
            if line.as_str().unicode_len() > 0 {
                let item = LogLine {
                    content: line,
                    stream: entry.stream.clone(),
                    timestamp: entry.timestamp,
                };
                proof {
                    assert(lines_view(self.lines@.push(item)) =~= lines_view(self.lines@).push(
                        item@,
                    ));
                    assert(segs@[k as int]@ == seg_views[k as int]);
                    assert(item@ == (LogLineView {
                        content: strip_cr(seg_views[k as int]),
                        stream: stream_v,
                        timestamp: ts,
                    }));
                    assert(spec_line_views(spec_kept_segments(seg_views.take(k + 1)), stream_v, ts)
                        =~= spec_line_views(
                        spec_kept_segments(seg_views.take(k as int)),
                        stream_v,
                        ts,
                    ).push(
                        LogLineView {
                            content: strip_cr(seg_views[k as int]),
                            stream: stream_v,
                            timestamp: ts,
                        },
                    ));
                }
                self.lines.push(item);
            } else {
                proof {
                    assert(spec_line_views(spec_kept_segments(seg_views.take(k + 1)), stream_v, ts)
                        =~= spec_line_views(
                        spec_kept_segments(seg_views.take(k as int)),
                        stream_v,
                        ts,
                    ));
                }
            }
            k = k + 1;
        }
        proof {
            assert(seg_views.take(seg_views.len() as int) =~= seg_views);
        }
        let ghost all = old_lines + spec_line_views(spec_kept_segments(seg_views), stream_v, ts);
        while self.lines.len() > self.max_lines
            invariant
                all.len() >= lines_view(self.lines@).len(),
                lines_view(self.lines@) =~= all.skip(all.len() - lines_view(self.lines@).len()),
                lines_view(self.lines@).len() >= self@.max_lines || lines_view(self.lines@).len()
                    == all.len(),
                self@.container_id == old(self)@.container_id,
                self@.follow == old(self)@.follow,
                self@.show_timestamps == old(self)@.show_timestamps,
                self@.subscribed == old(self)@.subscribed,
                self@.max_lines == old(self)@.max_lines,
            decreases self.lines@.len(),
        {
            proof {
                assert(lines_view(self.lines@.remove(0int)) =~= lines_view(self.lines@).skip(1));
                let cur = lines_view(self.lines@);
                assert(cur.skip(1) =~= all.skip(all.len() - (cur.len() - 1)));
            }
            self.lines.remove(0);
        }
        proof {
            let cur = lines_view(self.lines@);
            if all.len() > self@.max_lines {
                assert(cur.len() == self@.max_lines);
                assert(cur =~= all.skip(all.len() - self@.max_lines));
            } else {
                assert(cur.len() == all.len());
                assert(cur =~= all);
            }
        }
    }
}

} // verus!
