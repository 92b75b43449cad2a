//! The capture pipeline's configuration and its worker's decisions.
//!
//! The media graph itself — source, convert/scale stage, sink — is
//! built and driven by the media framework on a dedicated thread.  What
//! is decided here, and verified, is the configuration handed to that
//! graph, what the sink's new-sample callback does with each mapped
//! sample, and when the worker loop must stop.

use vstd::prelude::*;

use crate::channel::ChannelModel;
use crate::channel::Frame;
use crate::channel::FrameChannel;
use crate::channel::spec_send;
use crate::session::StreamDescriptor;
use crate::token::hex_digit;
use crate::token::hex_digit_char;
use crate::token::push_char;

verus! {

/// How many frames the channel between the media thread and the
/// consumer buffers before it starts dropping.
pub const FRAME_CHANNEL_CAPACITY: usize = 16;

/// The states of the underlying media graph.
#[derive(Clone, Copy, PartialEq, Eq, Structural, Debug)]
pub enum PipelineState {
    Null,
    Ready,
    Paused,
    Playing,
}

/// The bus messages the worker subscribes to; everything else is
/// filtered out before the worker sees it.
#[derive(Clone, Copy, PartialEq, Eq, Structural, Debug)]
pub enum BusMessage {
    /// The graph reported an error.
    Error,
    /// The source ended.
    Eos,
    /// The graph reached the given state.
    StateChanged(PipelineState),
}

/// Why a pipeline failed.
#[derive(Clone, Copy, PartialEq, Eq, Structural, Debug)]
pub enum PipelineError {
    /// An element could not be created or linked; nothing ever flowed.
    GraphConstruction,
    /// The graph reported an error while running.
    Runtime,
    /// The source ended; distinguished from `Runtime` for diagnostics
    /// only.
    EndOfStream,
}

/// How the worker loop ended.
#[derive(Clone, Copy, PartialEq, Eq, Structural, Debug)]
pub enum WorkerExit {
    /// The owner forced the graph back to its null state.
    Shutdown,
    /// The graph reported an error.
    Runtime,
    /// The source ended.
    EndOfStream,
}

/// What the worker does with one bus message.
#[derive(Clone, Copy, PartialEq, Eq, Structural, Debug)]
pub enum WorkerAction {
    Continue,
    Exit(WorkerExit),
}

/// The worker's decision for one filtered bus message: an error, the
/// end of the stream, and the transition back to the null state each
/// end the loop; any other state change is ignored.
pub open spec fn spec_worker_step(m: BusMessage) -> WorkerAction {
    match m {
        BusMessage::Error => WorkerAction::Exit(WorkerExit::Runtime),
        BusMessage::Eos => WorkerAction::Exit(WorkerExit::EndOfStream),
        BusMessage::StateChanged(s) => if s is Null {
            WorkerAction::Exit(WorkerExit::Shutdown)
        } else {
            WorkerAction::Continue
        },
    }
}

/// Decides what one filtered bus message means for the worker loop.
pub fn worker_step(m: &BusMessage) -> (a: WorkerAction)
    ensures
        a == spec_worker_step(*m),
{
    match m {
        BusMessage::Error => WorkerAction::Exit(WorkerExit::Runtime),
        BusMessage::Eos => WorkerAction::Exit(WorkerExit::EndOfStream),
        BusMessage::StateChanged(s) => match s {
            PipelineState::Null => WorkerAction::Exit(WorkerExit::Shutdown),
            _ => WorkerAction::Continue,
        },
    }
}

/// The decimal rendering of a number, most significant digit first.
/// For digits below ten the decimal digit and the hexadecimal digit
/// coincide.
pub open spec fn decimal_of(n: nat) -> Seq<char>
    decreases n,
{
    if n < 10 {
        seq![hex_digit(n as u8)]
    } else {
        decimal_of(n / 10) + seq![hex_digit((n % 10) as u8)]
    }
}

spec fn rev_digit_chars(ds: Seq<u8>) -> Seq<char>
    decreases ds.len(),
{
    if ds.len() == 0 {
        Seq::empty()
    } else {
        seq![hex_digit(ds.last())] + rev_digit_chars(ds.drop_last())
    }
}

proof fn lemma_rev_digit_chars_index(ds: Seq<u8>)
    ensures
        rev_digit_chars(ds).len() == ds.len(),
        forall|j: int|
            0 <= j < ds.len() ==> rev_digit_chars(ds)[j] == hex_digit(ds[ds.len() - 1 - j]),
    decreases ds.len(),
{
    if ds.len() > 0 {
        lemma_rev_digit_chars_index(ds.drop_last());
    }
}

/// Renders a node identifier in decimal, as the source element's
/// "path" property wants it.
pub fn u32_decimal(n: u32) -> (s: String)
    ensures
        s@ == decimal_of(n as nat),
{
    let mut digits: Vec<u8> = Vec::new();
    let mut m = n;
    while m >= 10
        invariant
            decimal_of(n as nat) == decimal_of(m as nat) + rev_digit_chars(digits@),
            forall|j: int| 0 <= j < digits@.len() ==> digits@[j] < 10,
        decreases m,
    {
        let d = (m % 10) as u8;
        let ghost prev = digits@;
        digits.push(d);
        proof {
            assert(digits@.drop_last() =~= prev);
            assert(decimal_of(n as nat) =~= decimal_of((m / 10) as nat) + rev_digit_chars(
                digits@,
            ));
        }
        m = m / 10;
    }
    let ghost prev = digits@;
    digits.push(m as u8);
    let ghost all = digits@;
    proof {
        assert(all.drop_last() =~= prev);
        assert(decimal_of(n as nat) =~= rev_digit_chars(all));
        lemma_rev_digit_chars_index(all);
    }
    let mut s = String::new();
    let count = digits.len();
    let mut i: usize = count;
    while i > 0
        invariant
            count == all.len(),
            i <= count,
            digits@ == all,
            forall|j: int| 0 <= j < all.len() ==> all[j] < 10,
            rev_digit_chars(all).len() == all.len(),
            forall|j: int|
                0 <= j < all.len() ==> rev_digit_chars(all)[j] == hex_digit(
                    all[all.len() - 1 - j],
                ),
            s@.len() == count - i,
            forall|j: int| 0 <= j < s@.len() ==> s@[j] == rev_digit_chars(all)[j],
        decreases i,
    {
        i = i - 1;
        let c = hex_digit_char(digits[i]);
        push_char(&mut s, c);
    }
    proof {
        assert(s@ =~= rev_digit_chars(all));
        assert(s@ == decimal_of(n as nat));
    }
    s
}

/// Everything the media graph is configured with: the source element
/// gets the borrowed descriptor and the node identifier rendered in
/// decimal as its "path" property; the sink requests a 32-bit,
/// four-channel pixel format with alpha, signals each sample, and drops
/// frames rather than queue them when the consumer is slow.
pub struct PipelineConfig {
    pub fd: i32,
    pub path: String,
    pub caps_format: String,
    pub drop_on_full: bool,
    pub emit_signals: bool,
}

/// Derives the graph configuration from what the handshake produced.
pub fn pipeline_config(desc: &StreamDescriptor) -> (c: PipelineConfig)
    ensures
        c.fd == desc.fd,
        c.path@ == decimal_of(desc.node_id as nat),
        c.caps_format@ == "RGBA"@,
        c.drop_on_full,
        c.emit_signals,
{
    PipelineConfig {
        fd: desc.fd,
        path: u32_decimal(desc.node_id),
        caps_format: String::from_str("RGBA"),
        drop_on_full: true,
        emit_signals: true,
    }
}

/// What the sink's new-sample callback did with one mapped sample.
#[derive(Clone, Copy, PartialEq, Eq, Structural, Debug)]
pub enum SampleDisposition {
    /// Wrapped as a frame and buffered for the consumer.
    Sent,
    /// The channel was full or closed: the newest frame is dropped and
    /// the producer is never blocked.
    Dropped,
    /// The mapped bytes were not exactly four bytes per pixel for the
    /// negotiated dimensions; nothing is sent.
    BadSize,
}

/// What the new-sample callback does: wrap the mapped bytes as a frame
/// of the negotiated dimensions and offer it to the channel without
/// ever blocking the media thread.
pub open spec fn spec_on_sample(m: ChannelModel, width: u32, height: u32, data: Vec<u8>) -> (
    ChannelModel,
    SampleDisposition,
) {
    if data@.len() != (width as int) * (height as int) * 4 {
        (m, SampleDisposition::BadSize)
    } else {
        let (m2, accepted) = spec_send(m, Frame { width, height, data });
        (
            m2,
            if accepted {
                SampleDisposition::Sent
            } else {
                SampleDisposition::Dropped
            },
        )
    }
}

/// Handles one mapped sample from the sink, never blocking: a full
/// channel drops the newest frame.
pub fn on_sample(ch: &mut FrameChannel, width: u32, height: u32, data: Vec<u8>) -> (d:
    SampleDisposition)
    ensures
        (final(ch)@, d) == spec_on_sample(old(ch)@, width, height, data),
{
    match Frame::new(width, height, data) {
        Some(f) => {
            if ch.try_send(f) {
                SampleDisposition::Sent
            } else {
                SampleDisposition::Dropped
            }
        },
        None => SampleDisposition::BadSize,
    }
}

/// One event the worker reacts to, in arrival order: a mapped sample
/// from the sink's callback, or a filtered message from the graph's
/// bus.
pub enum WorkerEvent {
    Sample(Frame),
    Bus(BusMessage),
}

/// Whether an event ends the worker loop.
pub open spec fn event_exits(e: WorkerEvent) -> bool {
    match e {
        WorkerEvent::Bus(m) => spec_worker_step(m) is Exit,
        WorkerEvent::Sample(_) => false,
    }
}

/// What a run of the worker over a finite event script does: samples
/// are offered to the channel in order, bus messages are judged by
/// `spec_worker_step`, and the first terminating message ends the run.
/// The result reports how the run ended (`None`: the script ran out
/// with the worker still parked) and how many events were processed.
pub open spec fn spec_run_worker(m: ChannelModel, events: Seq<WorkerEvent>) -> (
    ChannelModel,
    Option<WorkerExit>,
    int,
)
    decreases events.len(),
{
    if events.len() == 0 {
        (m, None, 0)
    } else {
        match events[0] {
            WorkerEvent::Sample(f) => {
                let (m2, r, k) = spec_run_worker(spec_send(m, f).0, events.drop_first());
                (m2, r, k + 1)
            },
            WorkerEvent::Bus(msg) => match spec_worker_step(msg) {
                WorkerAction::Continue => {
                    let (m2, r, k) = spec_run_worker(m, events.drop_first());
                    (m2, r, k + 1)
                },
                WorkerAction::Exit(x) => (m, Some(x), 1),
            },
        }
    }
}

/// Runs the worker over a finite event script: each sample is offered
/// to the channel without blocking, and the first terminating bus
/// message ends the run — nothing after it is processed, so no frame
/// after it is ever sent.
pub fn run_worker(ch: &mut FrameChannel, events: Vec<WorkerEvent>) -> (out: (
    Option<WorkerExit>,
    usize,
))
    ensures
        ({
            let (m_end, r, k) = spec_run_worker(old(ch)@, events@);
            &&& final(ch)@ == m_end
            &&& out.0 == r
            &&& out.1 == k
        }),
{
    let mut pending = events;
    let total = pending.len();
    let mut processed: usize = 0;
    while pending.len() > 0
        invariant
            events@.len() == total,
            processed + pending@.len() == events@.len(),
            ({
                let full = spec_run_worker(old(ch)@, events@);
                let rest = spec_run_worker(ch@, pending@);
                &&& full.0 == rest.0
                &&& full.1 == rest.1
                &&& full.2 == rest.2 + processed
            }),
        decreases pending@.len(),
    {
        let ghost pre = pending@;
        let ghost m_head = ch@;
        let e = pending.remove(0);
        proof {
            assert(pending@ =~= pre.drop_first());
            assert(pre[0] == e);
        }
        match e {
            WorkerEvent::Sample(f) => {
                let _accepted = ch.try_send(f);
                processed = processed + 1;
            },
            WorkerEvent::Bus(msg) => {
                match worker_step(&msg) {
                    WorkerAction::Continue => {
                        processed = processed + 1;
                    },
                    WorkerAction::Exit(x) => {
                        proof {
                            assert(spec_run_worker(m_head, pre) == (
                                m_head,
                                Some(x),
                                1int,
                            ));
                        }
                        return (Some(x), processed + 1);
                    },
                }
            },
        }
    }
    (None, processed)
}

/// What only the samples of an event prefix do to the channel.
pub open spec fn spec_send_samples(m: ChannelModel, events: Seq<WorkerEvent>) -> ChannelModel
    decreases events.len(),
{
    if events.len() == 0 {
        m
    } else {
        match events[0] {
            WorkerEvent::Sample(f) => spec_send_samples(spec_send(m, f).0, events.drop_first()),
            WorkerEvent::Bus(_) => spec_send_samples(m, events.drop_first()),
        }
    }
}

/// A terminating bus message — an error in particular — stops the
/// worker within that one message-processing step: exactly the events
/// before it are processed, the channel holds what the samples before
/// it sent, and no send happens after it.
pub proof fn lemma_exit_stops_worker(m: ChannelModel, events: Seq<WorkerEvent>, k: int)
    requires
        0 <= k < events.len(),
        event_exits(events[k]),
        forall|j: int| 0 <= j < k ==> !event_exits(#[trigger] events[j]),
    ensures
        ({
            let (m_end, r, n) = spec_run_worker(m, events);
            &&& n == k + 1
            &&& r is Some
            &&& m_end == spec_send_samples(m, events.take(k))
            &&& events[k] == WorkerEvent::Bus(BusMessage::Error) ==> r == Some(WorkerExit::Runtime)
        }),
    decreases k,
{
    if k == 0 {
        assert(events.take(0) =~= Seq::<WorkerEvent>::empty());
    } else {
        let rest = events.drop_first();
        assert(rest[k - 1] == events[k]);
        assert forall|j: int| 0 <= j < k - 1 implies !event_exits(#[trigger] rest[j]) by {
            assert(rest[j] == events[j + 1]);
        }
        match events[0] {
            WorkerEvent::Sample(f) => {
                lemma_exit_stops_worker(spec_send(m, f).0, rest, k - 1);
                assert(rest.take(k - 1) =~= events.take(k).drop_first());
            },
            WorkerEvent::Bus(msg) => {
                lemma_exit_stops_worker(m, rest, k - 1);
                assert(rest.take(k - 1) =~= events.take(k).drop_first());
            },
        }
    }
}

} // verus!
