//! The relay of a child process's output events to log records.
//!
//! Events are taken strictly in arrival order. Standard output is reported at
//! info level, standard error at warning level, stream errors at error level,
//! and the termination notice at info level; the termination notice ends the
//! relay, after which nothing more is reported for that process.
use vstd::prelude::*;

use crate::notice::{Level, LogRecord, Notice, NoticeView, RecordView, Termination};

verus! {

/// One event of a child process's output stream.
#[derive(Debug, PartialEq, Eq)]
pub enum OutputEvent {
    /// A line written to standard output, as raw bytes.
    Stdout(Vec<u8>),
    /// A line written to standard error, as raw bytes.
    Stderr(Vec<u8>),
    /// An error reported while reading from or waiting on the process.
    Error(String),
    /// The process ended.
    Terminated(Termination),
    /// Any other event of the stream; it is not reported.
    Other,
}

/// Which output stream a line came from.
#[derive(Clone, Copy, Debug, PartialEq, Eq, Structural)]
pub enum Stream {
    Stdout,
    Stderr,
}

/// The text that `String::from_utf8_lossy` makes of the given bytes.
pub uninterp spec fn lossy_text(b: Seq<u8>) -> Seq<char>;

/// Relies on std's `String::from_utf8_lossy`: decodes bytes as UTF-8,
/// replacing invalid sequences, with a result that depends on the bytes alone.
#[verifier::external_body]
fn decode_lossy(b: &Vec<u8>) -> (r: String)
    ensures
        r@ == lossy_text(b@),
{
    String::from_utf8_lossy(b).into_owned()
}

/// The level at which a line of the given stream is reported.
pub open spec fn stream_level(s: Stream) -> Level {
    match s {
        Stream::Stdout => Level::Info,
        Stream::Stderr => Level::Warn,
    }
}

/// The record that reports an event, if the event is reported at all.
pub open spec fn record_of(e: OutputEvent) -> Option<RecordView> {
    match e {
        OutputEvent::Stdout(b) => Some(
            RecordView { level: Level::Info, notice: NoticeView::Output(lossy_text(b@)) },
        ),
        OutputEvent::Stderr(b) => Some(
            RecordView { level: Level::Warn, notice: NoticeView::Output(lossy_text(b@)) },
        ),
        OutputEvent::Error(m) => Some(
            RecordView { level: Level::Error, notice: NoticeView::BackendError(m@) },
        ),
        OutputEvent::Terminated(t) => Some(
            RecordView { level: Level::Info, notice: NoticeView::Exited(t) },
        ),
        OutputEvent::Other => None,
    }
}

/// The records of one event, as a sequence of zero or one.
pub open spec fn records_of(e: OutputEvent) -> Seq<RecordView> {
    match record_of(e) {
        Some(r) => seq![r],
        None => Seq::empty(),
    }
}

/// Whether an event ends the relay.
pub open spec fn ends_relay(e: OutputEvent) -> bool {
    e is Terminated
}

/// Whether no event of the sequence ends the relay.
pub open spec fn open_throughout(events: Seq<OutputEvent>) -> bool {
    forall|i: int| 0 <= i < events.len() ==> !ends_relay(#[trigger] events[i])
}

/// The records that relaying a sequence of events produces, in order,
/// up to and including the first termination notice.
pub open spec fn relayed(events: Seq<OutputEvent>) -> Seq<RecordView>
    decreases events.len(),
{
    if events.len() == 0 {
        Seq::empty()
    } else if ends_relay(events[0]) {
        records_of(events[0])
    } else {
        records_of(events[0]) + relayed(events.drop_first())
    }
}

/// The mathematical values of a sequence of records.
pub open spec fn views(rs: Seq<LogRecord>) -> Seq<RecordView> {
    rs.map_values(|r: LogRecord| r@)
}

/// The mathematical value of an optional record.
pub open spec fn opt_view(r: Option<LogRecord>) -> Option<RecordView> {
    match r {
        Some(x) => Some(x@),
        None => None,
    }
}

/// The record of a decoded line of output: its level follows the stream.
pub fn output_record(stream: Stream, text: String) -> (r: LogRecord)
    ensures
        r@ == (RecordView { level: stream_level(stream), notice: NoticeView::Output(text@) }),
{
    let level = match stream {
        Stream::Stdout => Level::Info,
        Stream::Stderr => Level::Warn,
    };
    LogRecord::new(level, Notice::Output(text))
}

/// The record that reports an event, if the event is reported at all.
pub fn report(e: &OutputEvent) -> (r: Option<LogRecord>)
    ensures
        opt_view(r) == record_of(*e),
{
    match e {
        OutputEvent::Stdout(b) => Some(output_record(Stream::Stdout, decode_lossy(b))),
        OutputEvent::Stderr(b) => Some(output_record(Stream::Stderr, decode_lossy(b))),
        OutputEvent::Error(m) => Some(
            LogRecord::new(Level::Error, Notice::BackendError(m.clone())),
        ),
        OutputEvent::Terminated(t) => Some(LogRecord::new(Level::Info, Notice::Exited(*t))),
        OutputEvent::Other => None,
    }
}

/// The relay of one process instance: it reports events until the
/// termination notice, and nothing afterwards.
#[derive(Debug, PartialEq, Eq)]
pub struct Relay {
    subscribed: bool,
}

impl Relay {
    /// Whether the relay still takes events.
    pub closed spec fn subscribed(&self) -> bool {
        self.subscribed
    }

    /// A relay that takes events.
    pub fn new() -> (r: Relay)
        ensures
            r.subscribed(),
    {
        Relay { subscribed: true }
    }

    /// Whether the relay still takes events.
    pub fn is_subscribed(&self) -> (r: bool)
        ensures
            r == self.subscribed(),
    {
        self.subscribed
    }

    /// Takes the next event: while subscribed, reports it, and a termination
    /// notice ends the subscription; once ended, reports nothing.
    pub fn on_event(&mut self, e: &OutputEvent) -> (r: Option<LogRecord>)
        ensures
            opt_view(r) == (if old(self).subscribed() { record_of(*e) } else { None }),
            final(self).subscribed() == (old(self).subscribed() && !ends_relay(*e)),
    {
        if !self.subscribed {
            return None;
        }
        if let OutputEvent::Terminated(_) = e {
            self.subscribed = false;
        }
        report(e)
    }
}

/// Relaying a sequence with no termination notice, then another, gives the
/// records of the first followed by those of the second: order is kept.
pub proof fn lemma_relayed_append(pre: Seq<OutputEvent>, post: Seq<OutputEvent>)
    requires
        open_throughout(pre),
    ensures
        relayed(pre + post) == relayed(pre) + relayed(post),
    decreases pre.len(),
{
    if pre.len() == 0 {
        assert(pre + post =~= post);
        assert(relayed(pre) + relayed(post) =~= relayed(post));
    } else {
        let rest = pre.drop_first();
        assert((pre + post).drop_first() =~= rest + post);
        assert(open_throughout(rest)) by {
            assert forall|i: int| 0 <= i < rest.len() implies !ends_relay(#[trigger] rest[i]) by {
                assert(rest[i] == pre[i + 1]);
            }
        }
        assert(!ends_relay(pre[0]));
        lemma_relayed_append(rest, post);
        assert((pre + post)[0] == pre[0]);
        assert(records_of(pre[0]) + (relayed(rest) + relayed(post)) =~= (records_of(pre[0])
            + relayed(rest)) + relayed(post));
    }
}

/// A termination notice ends the relay: the events after it add no record,
/// and the notice itself is reported last, after the records of the events
/// before it, in their order.
pub proof fn lemma_termination_ends_relay(
    pre: Seq<OutputEvent>,
    t: Termination,
    post: Seq<OutputEvent>,
)
    requires
        open_throughout(pre),
    ensures
        relayed(pre + seq![OutputEvent::Terminated(t)] + post) == relayed(pre).push(
            RecordView { level: Level::Info, notice: NoticeView::Exited(t) },
        ),
{
    let tail = seq![OutputEvent::Terminated(t)] + post;
    assert(pre + seq![OutputEvent::Terminated(t)] + post =~= pre + tail);
    lemma_relayed_append(pre, tail);
    assert(tail[0] == OutputEvent::Terminated(t));
    assert(relayed(tail) == records_of(OutputEvent::Terminated(t)));
    assert(relayed(pre) + relayed(tail) =~= relayed(pre).push(
        RecordView { level: Level::Info, notice: NoticeView::Exited(t) },
    ));
}

/// Relays a sequence of events for one process instance, in order, up to
/// and including the first termination notice.
pub fn relay_all(events: &Vec<OutputEvent>) -> (r: Vec<LogRecord>)
    ensures
        views(r@) == relayed(events@),
{
    let mut relay = Relay::new();
    let mut out: Vec<LogRecord> = Vec::new();
    let mut i: usize = 0;
    while i < events.len() && relay.is_subscribed()
        invariant
            i <= events.len(),
            relay.subscribed() ==> open_throughout(events@.take(i as int)),
            relay.subscribed() ==> views(out@) == relayed(events@.take(i as int)),
            !relay.subscribed() ==> views(out@) == relayed(events@),
        decreases events.len() - i,
    {
        let e = &events[i];
        let ghost pre = events@.take(i as int);
        let ghost before = out@;
        proof {
            let one = seq![*e];
            assert(events@.take(i as int + 1) =~= pre + one);
            lemma_relayed_append(pre, one);
            assert(one.drop_first() =~= Seq::<OutputEvent>::empty());
            assert(relayed(one.drop_first()) == Seq::<RecordView>::empty());
            assert(records_of(*e) + Seq::<RecordView>::empty() =~= records_of(*e));
            assert(relayed(one) == records_of(*e));
            assert(events@ =~= pre + events@.skip(i as int));
            lemma_relayed_append(pre, events@.skip(i as int));
            assert(events@.skip(i as int)[0] == *e);
        }
        let r = relay.on_event(e);
        match r {
            Some(rec) => {
                out.push(rec);
                proof {
                    assert(views(out@) =~= views(before) + records_of(*e));
                }
            },
            None => {
                proof {
                    assert(views(out@) =~= views(before) + records_of(*e));
                }
            },
        }
        proof {
            if relay.subscribed() {
                assert forall|j: int| 0 <= j < i + 1 implies !ends_relay(
                    #[trigger] events@.take(i as int + 1)[j],
                ) by {
                    if j < i {
                        assert(events@.take(i as int + 1)[j] == pre[j]);
                    }
                }
            }
        }
        i = i + 1;
    }
    proof {
        if relay.subscribed() {
            assert(events@.take(i as int) =~= events@);
        }
    }
    out
}

} // verus!
