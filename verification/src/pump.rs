//! Output forwarding: what the pump does with each event of the child's
//! captured streams. The host owns the channel and the log sink; it hands
//! every event to the pump and carries out the action that comes back.

use vstd::prelude::*;
use vstd::utf8::{decode_utf8, valid_utf8};

verus! {

/// The stream that a line was read from.
#[derive(Clone, Copy, Debug, PartialEq, Eq, Structural)]
pub enum StreamKind {
    Stdout,
    Stderr,
}

/// How the child ended, as far as the operating system told.
#[derive(Clone, Copy, Debug, PartialEq, Eq, Structural)]
pub struct ExitStatus {
    pub code: Option<i32>,
    pub signal: Option<i32>,
}

/// One event of the child's output channel.
#[derive(Debug, PartialEq, Eq)]
pub enum ChildEvent {
    /// A line of standard output, as raw bytes.
    Stdout(Vec<u8>),
    /// A line of standard error, as raw bytes.
    Stderr(Vec<u8>),
    /// The reader met an error; the text describes it.
    Error(String),
    /// The child exited.
    Terminated(ExitStatus),
    /// An event of a kind that the pump does not know.
    Other,
}

/// A decoded line on its way to the log sink.
#[derive(Debug, PartialEq, Eq)]
pub struct OutputLine {
    pub stream: StreamKind,
    pub text: String,
}

/// An [`OutputLine`] as a mathematical value.
pub struct OutputLineView {
    pub stream: StreamKind,
    pub text: Seq<char>,
}

impl View for OutputLine {
    type V = OutputLineView;

    open spec fn view(&self) -> OutputLineView {
        OutputLineView { stream: self.stream, text: self.text@ }
    }
}

/// What the host does after an event.
#[derive(Debug, PartialEq, Eq)]
pub enum PumpAction {
    /// Write the line to the log sink.
    Forward(OutputLine),
    /// Report that the child exited; the pump has stopped.
    ReportExit(ExitStatus),
    /// Nothing.
    Skip,
}

/// A [`PumpAction`] as a mathematical value.
pub enum PumpActionView {
    Forward(OutputLineView),
    ReportExit(ExitStatus),
    Skip,
}

impl View for PumpAction {
    type V = PumpActionView;

    open spec fn view(&self) -> PumpActionView {
        match self {
            PumpAction::Forward(line) => PumpActionView::Forward(line@),
            PumpAction::ReportExit(status) => PumpActionView::ReportExit(*status),
            PumpAction::Skip => PumpActionView::Skip,
        }
    }
}

/// The text that lossy UTF-8 decoding makes of a byte sequence: the bytes'
/// own text where they are valid UTF-8, and otherwise a text in which each
/// invalid sequence is replaced by U+FFFD.
pub uninterp spec fn lossy_utf8(bytes: Seq<u8>) -> Seq<char>;

/// Calls `String::from_utf8_lossy` of the standard library and takes the
/// result as an owned string. Trusted: the result is a function of the bytes
/// alone, and for bytes that are valid UTF-8 it is the text they encode.
/// What invalid sequences become is not stated here.
#[verifier::external_body]
fn decode_lossy(bytes: &[u8]) -> (text: String)
    ensures
        text@ == lossy_utf8(bytes@),
        valid_utf8(bytes@) ==> text@ == decode_utf8(bytes@),
{
    String::from_utf8_lossy(bytes).into_owned()
}

/// The prefix of every forwarded line in the log.
pub open spec fn log_prefix() -> Seq<char> {
    "[backend] "@
}

impl OutputLine {
    /// A line of the given stream with an already decoded text.
    pub fn new(stream: StreamKind, text: String) -> (line: OutputLine)
        ensures
            line@ == (OutputLineView { stream, text: text@ }),
    {
        OutputLine { stream, text }
    }

    /// Decodes the raw bytes of a line, lossily, and tags it with its stream.
    pub fn decode(stream: StreamKind, bytes: &[u8]) -> (line: OutputLine)
        ensures
            line@ == (OutputLineView { stream, text: lossy_utf8(bytes@) }),
            valid_utf8(bytes@) ==> line@.text == decode_utf8(bytes@),
    {
        OutputLine::new(stream, decode_lossy(bytes))
    }

    /// The line as it is written to the log: the prefix, then the text.
    pub fn log_text(&self) -> (text: String)
        ensures
            text@ == log_prefix() + self@.text,
    {
        let mut text = String::from_str("[backend] ");
        text.append(self.text.as_str());
        text
    }
}

/// The raw bytes of a line event; empty for other events.
pub open spec fn event_bytes(event: ChildEvent) -> Seq<u8> {
    match event {
        ChildEvent::Stdout(bytes) => bytes@,
        ChildEvent::Stderr(bytes) => bytes@,
        _ => Seq::empty(),
    }
}

/// The line that an event carries, if it is a line of output.
pub open spec fn line_of(event: ChildEvent) -> Option<OutputLineView> {
    match event {
        ChildEvent::Stdout(bytes) => Some(
            OutputLineView { stream: StreamKind::Stdout, text: lossy_utf8(bytes@) },
        ),
        ChildEvent::Stderr(bytes) => Some(
            OutputLineView { stream: StreamKind::Stderr, text: lossy_utf8(bytes@) },
        ),
        _ => None,
    }
}

/// The action on an event: a running pump forwards every line, reports the
/// exit and skips the rest; a stopped pump skips everything.
pub open spec fn action_on(running: bool, event: ChildEvent) -> PumpActionView {
    if !running {
        PumpActionView::Skip
    } else {
        match event {
            ChildEvent::Terminated(status) => PumpActionView::ReportExit(status),
            _ => match line_of(event) {
                Some(line) => PumpActionView::Forward(line),
                None => PumpActionView::Skip,
            },
        }
    }
}

/// Whether the pump still runs after an event: it stops when the child exits.
pub open spec fn running_after(running: bool, event: ChildEvent) -> bool {
    running && !(event is Terminated)
}

/// The pump of one child. It runs until the child exits or the channel
/// closes, and never starts again.
#[derive(Debug)]
pub struct OutputPump {
    running: bool,
}

impl OutputPump {
    /// Whether the pump still takes events.
    pub closed spec fn running(&self) -> bool {
        self.running
    }

    /// A running pump.
    pub fn new() -> (pump: OutputPump)
        ensures
            pump.running(),
    {
        OutputPump { running: true }
    }

    pub fn is_running(&self) -> (running: bool)
        ensures
            running == self.running(),
    {
        self.running
    }

    /// Takes one event of the channel and says what to do with it.
    pub fn on_event(&mut self, event: ChildEvent) -> (action: PumpAction)
        ensures
            action@ == action_on(old(self).running(), event),
            final(self).running() == running_after(old(self).running(), event),
            action matches PumpAction::Forward(line) ==> (valid_utf8(event_bytes(event))
                ==> line@.text == decode_utf8(event_bytes(event))),
    {
        if !self.running {
            return PumpAction::Skip;
        }
        match event {
            ChildEvent::Stdout(bytes) => PumpAction::Forward(
                OutputLine::decode(StreamKind::Stdout, bytes.as_slice()),
            ),
            ChildEvent::Stderr(bytes) => PumpAction::Forward(
                OutputLine::decode(StreamKind::Stderr, bytes.as_slice()),
            ),
            ChildEvent::Terminated(status) => {
                self.running = false;
                PumpAction::ReportExit(status)
            },
            ChildEvent::Error(_) => PumpAction::Skip,
            ChildEvent::Other => PumpAction::Skip,
        }
    }

    /// The channel closed: the pump stops, and that is no error.
    pub fn on_closed(&mut self)
        ensures
            !final(self).running(),
    {
        self.running = false;
    }
}

/// Whether a pump that starts in the given state still runs after a whole
/// sequence of events.
pub open spec fn running_at_end(running: bool, events: Seq<ChildEvent>) -> bool
    decreases events.len(),
{
    if events.len() == 0 {
        running
    } else {
        running_at_end(running_after(running, events[0]), events.drop_first())
    }
}

/// The lines that a pump forwards over a sequence of events, in order.
pub open spec fn forwarded(running: bool, events: Seq<ChildEvent>) -> Seq<OutputLineView>
    decreases events.len(),
{
    if events.len() == 0 {
        Seq::empty()
    } else {
        let rest = forwarded(running_after(running, events[0]), events.drop_first());
        match action_on(running, events[0]) {
            PumpActionView::Forward(line) => seq![line] + rest,
            _ => rest,
        }
    }
}

/// The lines that a sequence of events carries, in order.
pub open spec fn lines_in(events: Seq<ChildEvent>) -> Seq<OutputLineView>
    decreases events.len(),
{
    if events.len() == 0 {
        Seq::empty()
    } else {
        match line_of(events[0]) {
            Some(line) => seq![line] + lines_in(events.drop_first()),
            None => lines_in(events.drop_first()),
        }
    }
}

/// How many of the lines carry the given tag.
pub open spec fn count_tagged(lines: Seq<OutputLineView>, stream: StreamKind) -> nat
    decreases lines.len(),
{
    if lines.len() == 0 {
        0
    } else if lines[0].stream == stream {
        1 + count_tagged(lines.drop_first(), stream)
    } else {
        count_tagged(lines.drop_first(), stream)
    }
}

/// How many lines the child wrote to the given stream.
pub open spec fn count_written(events: Seq<ChildEvent>, stream: StreamKind) -> nat
    decreases events.len(),
{
    if events.len() == 0 {
        0
    } else {
        let here: nat = match events[0] {
            ChildEvent::Stdout(_) => if stream == StreamKind::Stdout { 1 } else { 0 },
            ChildEvent::Stderr(_) => if stream == StreamKind::Stderr { 1 } else { 0 },
            _ => 0,
        };
        here + count_written(events.drop_first(), stream)
    }
}

/// A stopped pump forwards nothing and stays stopped, whatever comes.
pub proof fn lemma_stopped_pump_is_silent(events: Seq<ChildEvent>)
    ensures
        forwarded(false, events) == Seq::<OutputLineView>::empty(),
        !running_at_end(false, events),
    decreases events.len(),
{
    if events.len() > 0 {
        lemma_stopped_pump_is_silent(events.drop_first());
    }
}

/// The lines of a sequence of events carry each tag as often as the child
/// wrote to that stream.
pub proof fn lemma_lines_counted(events: Seq<ChildEvent>, stream: StreamKind)
    ensures
        count_tagged(lines_in(events), stream) == count_written(events, stream),
    decreases events.len(),
{
    if events.len() > 0 {
        lemma_lines_counted(events.drop_first(), stream);
        match line_of(events[0]) {
            Some(line) => {
                let all = seq![line] + lines_in(events.drop_first());
                assert(all.drop_first() =~= lines_in(events.drop_first()));
            },
            None => {},
        }
    }
}

/// Until the child exits, a running pump forwards exactly the lines that
/// arrive, in their order, and goes on running.
pub proof fn lemma_running_pump_forwards(written: Seq<ChildEvent>, later: Seq<ChildEvent>)
    requires
        forall|i: int| 0 <= i < written.len() ==> !(#[trigger] written[i] is Terminated),
    ensures
        forwarded(true, written + later) == lines_in(written) + forwarded(true, later),
        running_at_end(true, written + later) == running_at_end(true, later),
    decreases written.len(),
{
    if written.len() == 0 {
        assert(written + later =~= later);
        assert(lines_in(written) + forwarded(true, later) =~= forwarded(true, later));
    } else {
        let all = written + later;
        assert(all[0] == written[0]);
        assert(all.drop_first() =~= written.drop_first() + later);
        assert(running_after(true, written[0]));
        lemma_running_pump_forwards(written.drop_first(), later);
        match line_of(written[0]) {
            Some(line) => {
                assert(seq![line] + (lines_in(written.drop_first()) + forwarded(true, later))
                    =~= (seq![line] + lines_in(written.drop_first())) + forwarded(true, later));
            },
            None => {},
        }
    }
}

/// A child that writes some lines to its two streams and then exits has
/// every one of them forwarded, once, in order and under the tag of its
/// stream: as many lines with each tag as it wrote to that stream. After the
/// exit the pump has stopped, and whatever arrives later is dropped.
pub proof fn lemma_every_line_forwarded_once(
    written: Seq<ChildEvent>,
    status: ExitStatus,
    later: Seq<ChildEvent>,
)
    requires
        forall|i: int| 0 <= i < written.len() ==> !(#[trigger] written[i] is Terminated),
    ensures
        ({
            let events = written.push(ChildEvent::Terminated(status)) + later;
            &&& forwarded(true, events) == lines_in(written)
            &&& count_tagged(forwarded(true, events), StreamKind::Stdout) == count_written(
                written,
                StreamKind::Stdout,
            )
            &&& count_tagged(forwarded(true, events), StreamKind::Stderr) == count_written(
                written,
                StreamKind::Stderr,
            )
            &&& !running_at_end(true, events)
        }),
{
    let exit = ChildEvent::Terminated(status);
    let tail = seq![exit] + later;
    let events = written.push(exit) + later;
    assert(events =~= written + tail);
    lemma_running_pump_forwards(written, tail);
    assert(tail.drop_first() =~= later);
    lemma_stopped_pump_is_silent(later);
    assert(forwarded(true, tail) == Seq::<OutputLineView>::empty());
    assert(lines_in(written) + Seq::<OutputLineView>::empty() =~= lines_in(written));
    lemma_lines_counted(written, StreamKind::Stdout);
    lemma_lines_counted(written, StreamKind::Stderr);
}

} // verus!
