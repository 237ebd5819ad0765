//! The transcode session: what to do next, given what the last step brought.
//!
//! A session is bound to one input stream and one ready filter graph, and
//! begins once the container header is written, when the time base of the
//! output stream is settled. It names the step that is due (read a packet,
//! decode it, push the frame into the graph, pull adapted frames, encode
//! them, write the packets) and moves on when it is told how the step ended.
//! At the end of the input it runs the flush sequence: the filter graph is
//! flushed and drained, then the encoder, and then the trailer is written.
//! Whoever drives the session does the work on the codecs and the container.
//!
//! Timestamps cross three clocks. A packet read from the input is carried
//! from the input stream's time base to the decoder's; a packet that leaves
//! the encoder is carried from the encoder's time base to the output
//! stream's.

use vstd::prelude::*;
use crate::error::{Error, ErrorKind};
use crate::filter::{FilterGraph, GraphStage, GraphState};
use crate::timebase::{
    lemma_rescale_monotonic,
    rescale_ts,
    rescaled,
    rescaled_ts,
    Ratio,
    TimeBase,
};

verus! {

/// What a session does when the decoder or the encoder fails on one packet
/// or frame.
#[derive(Clone, Copy, Debug, PartialEq, Eq, Structural)]
pub enum Policy {
    /// The first such failure ends the run.
    Strict,
    /// The packet or frame is dropped and counted, and the run goes on.
    Lenient,
}

/// How a step ended.
#[derive(Clone, Copy, Debug, PartialEq, Eq, Structural)]
pub enum Outcome {
    /// The step failed.
    Failed,
    /// The step was done and brought nothing: no packet is left to read, no
    /// frame or packet is ready, or the step is one that brings nothing.
    Nothing,
    /// The step brought a packet or a frame. `stream` is the index of the
    /// stream a packet was read from; `pts` is the timestamp of the packet or
    /// frame, in the time base of whatever produced it.
    Unit { stream: usize, pts: Option<i64> },
}

/// The part of a run that a frame or packet belongs to.
#[derive(Clone, Copy, Debug, PartialEq, Eq, Structural)]
pub enum Leg {
    /// The input is still being read.
    Body,
    /// The input is over and the filter graph is being drained.
    FilterDrain,
    /// The filter graph is empty and the encoder is being drained.
    EncoderDrain,
}

/// Where a session stands: the step that is due.
#[derive(Clone, Copy, Debug, PartialEq, Eq, Structural)]
pub enum Phase {
    /// A packet is to be read from the input. A read that fails ends the
    /// input like a read that brings nothing.
    Reading,
    /// The packet read is to be decoded; `pts` is its timestamp on the
    /// decoder's clock.
    Decoding { pts: Option<i64> },
    /// The decoded frame is to be pushed into the graph.
    Pushing { pts: Option<i64> },
    /// A frame is to be pulled from the graph; `tail` says that the input is
    /// over. A pull that fails is a pull that brings no frame.
    Pulling { tail: bool },
    /// The frame pulled is to be encoded.
    Encoding { tail: bool },
    /// The packet is to be written; `pts` is its timestamp on the output
    /// stream's clock.
    Writing { pts: Option<i64>, leg: Leg },
    /// The end of the input is to be signalled to the graph.
    FlushingFilter,
    /// A packet is to be drawn from the flushing encoder.
    FlushingEncoder,
    /// The container trailer is to be written.
    Trailer,
    /// The run is over: the trailer is written.
    Done,
    /// The run has failed.
    Failed(ErrorKind),
}

/// The step that is due.
#[derive(Clone, Copy, Debug, PartialEq, Eq, Structural)]
pub enum Action {
    /// Read the next packet of the input.
    ReadPacket,
    /// Give the packet this timestamp and decode it.
    Decode { pts: Option<i64> },
    /// Give the frame this timestamp and push it into the graph's source.
    PushFrame { pts: Option<i64> },
    /// Pull a frame from the graph's sink.
    PullFrame,
    /// Encode the frame.
    Encode,
    /// Tag the packet with this output stream and timestamp and write it.
    WritePacket { stream: usize, pts: Option<i64> },
    /// Signal the end of the stream to the graph's source.
    FlushFilter,
    /// Draw a packet from the encoder in flush mode.
    FlushEncoder,
    /// Write the container trailer.
    WriteTrailer,
    /// Nothing: the run is over.
    Finished,
    /// Nothing: the run has failed at this stage.
    Abort(ErrorKind),
}

/// One more, up to the largest count that is kept.
pub open spec fn bump(n: u64) -> u64 {
    if n < u64::MAX {
        (n + 1) as u64
    } else {
        n
    }
}

/// What a session is set up with.
#[derive(Clone, Copy, Debug)]
pub struct SessionSetup {
    /// The index of the input stream that is transcoded.
    pub stream: usize,
    /// The index of the output stream that every packet is tagged with.
    pub output_stream: usize,
    pub policy: Policy,
    /// The time base of the input stream.
    pub stream_base: TimeBase,
    /// The time base of the decoder.
    pub decoder_base: TimeBase,
    /// The time base of the encoder.
    pub encoder_base: TimeBase,
    /// The time base declared for the output stream.
    pub output_base: TimeBase,
}

/// The state of a session.
pub struct SessionState {
    pub stream: usize,
    pub output_stream: usize,
    pub policy: Policy,
    pub stream_base: Ratio,
    pub decoder_base: Ratio,
    pub encoder_base: Ratio,
    pub output_base: Ratio,
    pub graph: GraphState,
    pub phase: Phase,
    /// The number of packets written.
    pub written: u64,
    /// The number of packets and frames dropped after a failure.
    pub skipped: u64,
}

impl SessionState {
    /// The four time bases are positive.
    pub open spec fn clocks_valid(self) -> bool {
        &&& self.stream_base.positive()
        &&& self.decoder_base.positive()
        &&& self.encoder_base.positive()
        &&& self.output_base.positive()
    }

    /// The timestamp on the decoder's clock of a packet read with `pts`.
    pub open spec fn decoder_ts(self, pts: Option<i64>) -> Option<i64> {
        rescaled_ts(pts, self.stream_base, self.decoder_base)
    }

    /// The timestamp on the output stream's clock of a packet that leaves the
    /// encoder with `pts`.
    pub open spec fn output_ts(self, pts: Option<i64>) -> Option<i64> {
        rescaled_ts(pts, self.encoder_base, self.output_base)
    }

    /// The step that is due.
    pub open spec fn due(self) -> Action {
        match self.phase {
            Phase::Reading => Action::ReadPacket,
            Phase::Decoding { pts } => Action::Decode { pts },
            Phase::Pushing { pts } => Action::PushFrame { pts },
            Phase::Pulling { .. } => Action::PullFrame,
            Phase::Encoding { .. } => Action::Encode,
            Phase::Writing { pts, .. } => Action::WritePacket { stream: self.output_stream, pts },
            Phase::FlushingFilter => Action::FlushFilter,
            Phase::FlushingEncoder => Action::FlushEncoder,
            Phase::Trailer => Action::WriteTrailer,
            Phase::Done => Action::Finished,
            Phase::Failed(kind) => Action::Abort(kind),
        }
    }

    /// The state with another phase.
    pub open spec fn at(self, phase: Phase) -> SessionState {
        SessionState { phase, ..self }
    }

    /// The state after a packet or frame was dropped: under the lenient
    /// policy the run goes on at `phase` with one more skipped, under the
    /// strict policy it fails at the stage `kind`.
    pub open spec fn dropped(self, kind: ErrorKind, phase: Phase) -> SessionState {
        match self.policy {
            Policy::Strict => self.at(Phase::Failed(kind)),
            Policy::Lenient => SessionState { phase, skipped: bump(self.skipped), ..self },
        }
    }

    /// The state after the step that was due has ended with `outcome`.
    pub open spec fn after(self, outcome: Outcome) -> SessionState {
        match self.phase {
            Phase::Reading => match outcome {
                Outcome::Unit { stream, pts } => if stream == self.stream {
                    self.at(Phase::Decoding { pts: self.decoder_ts(pts) })
                } else {
                    self
                },
                _ => self.at(Phase::FlushingFilter),
            },
            Phase::Decoding { .. } => match outcome {
                Outcome::Unit { pts, .. } => self.at(Phase::Pushing { pts }),
                Outcome::Nothing => self.at(Phase::Reading),
                Outcome::Failed => self.dropped(ErrorKind::Decode, Phase::Reading),
            },
            Phase::Pushing { .. } => match outcome {
                Outcome::Failed => self.at(Phase::Failed(ErrorKind::FilterGraph)),
                _ => self.at(Phase::Pulling { tail: false }),
            },
            Phase::Pulling { tail } => match outcome {
                Outcome::Unit { .. } => self.at(Phase::Encoding { tail }),
                _ => if tail {
                    self.at(Phase::FlushingEncoder)
                } else {
                    self.at(Phase::Reading)
                },
            },
            Phase::Encoding { tail } => match outcome {
                Outcome::Unit { pts, .. } => self.at(
                    Phase::Writing {
                        pts: self.output_ts(pts),
                        leg: if tail {
                            Leg::FilterDrain
                        } else {
                            Leg::Body
                        },
                    },
                ),
                Outcome::Nothing => self.at(Phase::Pulling { tail }),
                Outcome::Failed => self.dropped(ErrorKind::Encode, Phase::Pulling { tail }),
            },
            Phase::Writing { leg, .. } => match outcome {
                Outcome::Failed => self.at(Phase::Failed(ErrorKind::Mux)),
                _ => SessionState {
                    phase: match leg {
                        Leg::Body => Phase::Pulling { tail: false },
                        Leg::FilterDrain => Phase::Pulling { tail: true },
                        Leg::EncoderDrain => Phase::FlushingEncoder,
                    },
                    written: bump(self.written),
                    ..self
                },
            },
            Phase::FlushingFilter => match outcome {
                Outcome::Failed => self.at(Phase::Failed(ErrorKind::FilterGraph)),
                _ => self.at(Phase::Pulling { tail: true }),
            },
            Phase::FlushingEncoder => match outcome {
                Outcome::Unit { pts, .. } => self.at(
                    Phase::Writing { pts: self.output_ts(pts), leg: Leg::EncoderDrain },
                ),
                Outcome::Nothing => self.at(Phase::Trailer),
                Outcome::Failed => self.dropped(ErrorKind::Encode, Phase::Trailer),
            },
            Phase::Trailer => match outcome {
                Outcome::Failed => self.at(Phase::Failed(ErrorKind::Mux)),
                _ => self.at(Phase::Done),
            },
            Phase::Done => self,
            Phase::Failed(_) => self,
        }
    }

    /// The state after the steps with the given outcomes, in order.
    pub open spec fn after_all(self, outcomes: Seq<Outcome>) -> SessionState
        decreases outcomes.len(),
    {
        if outcomes.len() == 0 {
            self
        } else {
            self.after_all(outcomes.drop_last()).after(outcomes.last())
        }
    }

    /// Whether the run is over, well or badly.
    pub open spec fn ended(self) -> bool {
        self.phase is Done || self.phase is Failed
    }

    /// Whether the body is written: the trailer is due or the run is over.
    pub open spec fn closing(self) -> bool {
        self.phase is Trailer || self.ended()
    }

    /// How far the run has come: the body, signalling the end to the filter
    /// graph, draining the graph, draining the encoder, writing the trailer,
    /// over.
    pub open spec fn progress(self) -> nat {
        match self.phase {
            Phase::Reading => 1,
            Phase::Decoding { .. } => 1,
            Phase::Pushing { .. } => 1,
            Phase::Pulling { tail } => if tail {
                3
            } else {
                1
            },
            Phase::Encoding { tail } => if tail {
                3
            } else {
                1
            },
            Phase::Writing { leg, .. } => match leg {
                Leg::Body => 1,
                Leg::FilterDrain => 3,
                Leg::EncoderDrain => 4,
            },
            Phase::FlushingFilter => 2,
            Phase::FlushingEncoder => 4,
            Phase::Trailer => 5,
            Phase::Done => 6,
            Phase::Failed(_) => 6,
        }
    }
}

/// What a step is called in the cause of a failure.
pub open spec fn action_name(action: Action) -> Seq<char> {
    match action {
        Action::ReadPacket => "reading a packet failed"@,
        Action::Decode { .. } => "decoding a packet failed"@,
        Action::PushFrame { .. } => "the graph took no frame"@,
        Action::PullFrame => "pulling a frame failed"@,
        Action::Encode => "encoding a frame failed"@,
        Action::WritePacket { .. } => "writing a packet failed"@,
        Action::FlushFilter => "flushing the graph failed"@,
        Action::FlushEncoder => "flushing the encoder failed"@,
        Action::WriteTrailer => "writing the trailer failed"@,
        Action::Finished => "nothing was due"@,
        Action::Abort(_) => "nothing was due"@,
    }
}

fn name_of_action(action: Action) -> (s: &'static str)
    ensures
        s@ == action_name(action),
{
    match action {
        Action::ReadPacket => "reading a packet failed",
        Action::Decode { .. } => "decoding a packet failed",
        Action::PushFrame { .. } => "the graph took no frame",
        Action::PullFrame => "pulling a frame failed",
        Action::Encode => "encoding a frame failed",
        Action::WritePacket { .. } => "writing a packet failed",
        Action::FlushFilter => "flushing the graph failed",
        Action::FlushEncoder => "flushing the encoder failed",
        Action::WriteTrailer => "writing the trailer failed",
        Action::Finished => "nothing was due",
        Action::Abort(_) => "nothing was due",
    }
}

fn count_up(n: u64) -> (m: u64)
    ensures
        m == bump(n),
{
    if n < u64::MAX {
        n + 1
    } else {
        n
    }
}

/// One run of the transcode pipeline over one input stream.
#[derive(Debug)]
pub struct Session {
    setup: SessionSetup,
    graph: FilterGraph,
    phase: Phase,
    written: u64,
    skipped: u64,
}

impl View for Session {
    type V = SessionState;

    closed spec fn view(&self) -> SessionState {
        SessionState {
            stream: self.setup.stream,
            output_stream: self.setup.output_stream,
            policy: self.setup.policy,
            stream_base: self.setup.stream_base@,
            decoder_base: self.setup.decoder_base@,
            encoder_base: self.setup.encoder_base@,
            output_base: self.setup.output_base@,
            graph: self.graph@,
            phase: self.phase,
            written: self.written,
            skipped: self.skipped,
        }
    }
}

impl Session {
    #[verifier::type_invariant]
    spec fn valid(self) -> bool {
        self.graph@.stage == GraphStage::Ready
    }

    /// A session at its start: a packet is to be read, nothing is written
    /// and nothing skipped. There is no session without a ready filter graph.
    pub fn new(setup: SessionSetup, graph: FilterGraph) -> (r: Result<Session, Error>)
        ensures
            r.is_ok() <==> graph@.stage == GraphStage::Ready,
            r matches Ok(session) ==> session@ == (SessionState {
                stream: setup.stream,
                output_stream: setup.output_stream,
                policy: setup.policy,
                stream_base: setup.stream_base@,
                decoder_base: setup.decoder_base@,
                encoder_base: setup.encoder_base@,
                output_base: setup.output_base@,
                graph: graph@,
                phase: Phase::Reading,
                written: 0,
                skipped: 0,
            }) && session@.clocks_valid(),
            r matches Err(e) ==> e.kind == ErrorKind::FilterGraph && e.cause@
                == "the filter graph is not ready"@,
    {
        if graph.is_ready() {
            proof {
                use_type_invariant(&setup.stream_base);
                use_type_invariant(&setup.decoder_base);
                use_type_invariant(&setup.encoder_base);
                use_type_invariant(&setup.output_base);
            }
            Ok(Session { setup, graph, phase: Phase::Reading, written: 0, skipped: 0 })
        } else {
            Err(Error::new(ErrorKind::FilterGraph, "the filter graph is not ready"))
        }
    }

    /// The step that is due.
    pub fn pending(&self) -> (action: Action)
        ensures
            action == self@.due(),
    {
        match self.phase {
            Phase::Reading => Action::ReadPacket,
            Phase::Decoding { pts } => Action::Decode { pts },
            Phase::Pushing { pts } => Action::PushFrame { pts },
            Phase::Pulling { .. } => Action::PullFrame,
            Phase::Encoding { .. } => Action::Encode,
            Phase::Writing { pts, .. } => Action::WritePacket {
                stream: self.setup.output_stream,
                pts,
            },
            Phase::FlushingFilter => Action::FlushFilter,
            Phase::FlushingEncoder => Action::FlushEncoder,
            Phase::Trailer => Action::WriteTrailer,
            Phase::Done => Action::Finished,
            Phase::Failed(kind) => Action::Abort(kind),
        }
    }

    /// Records how the step that was due has ended.
    ///
    /// A failure that ends the run is reported once, by the call that
    /// records it; its cause names the step.
    pub fn completed(&mut self, outcome: Outcome) -> (r: Result<(), Error>)
        ensures
            final(self)@ == old(self)@.after(outcome),
            r.is_err() <==> (final(self)@.phase is Failed && !(old(self)@.phase is Failed)),
            r matches Err(e) ==> final(self)@.phase == Phase::Failed(e.kind) && e.cause@
                == action_name(old(self)@.due()),
    {
        proof {
            use_type_invariant(&*self);
        }
        let due: Action = self.pending();
        let lenient: bool = self.setup.policy == Policy::Lenient;
        let mut failure: Option<ErrorKind> = None;
        let mut skip: bool = false;
        let mut wrote: bool = false;
        let next: Phase = match self.phase {
            Phase::Reading => match outcome {
                Outcome::Unit { stream, pts } => if stream == self.setup.stream {
                    Phase::Decoding {
                        pts: rescale_ts(pts, &self.setup.stream_base, &self.setup.decoder_base),
                    }
                } else {
                    Phase::Reading
                },
                _ => Phase::FlushingFilter,
            },
            Phase::Decoding { .. } => match outcome {
                Outcome::Unit { pts, .. } => Phase::Pushing { pts },
                Outcome::Nothing => Phase::Reading,
                Outcome::Failed => if lenient {
                    skip = true;
                    Phase::Reading
                } else {
                    failure = Some(ErrorKind::Decode);
                    Phase::Failed(ErrorKind::Decode)
                },
            },
            Phase::Pushing { .. } => match outcome {
                Outcome::Failed => {
                    failure = Some(ErrorKind::FilterGraph);
                    Phase::Failed(ErrorKind::FilterGraph)
                },
                _ => Phase::Pulling { tail: false },
            },
            Phase::Pulling { tail } => match outcome {
                Outcome::Unit { .. } => Phase::Encoding { tail },
                _ => if tail {
                    Phase::FlushingEncoder
                } else {
                    Phase::Reading
                },
            },
            Phase::Encoding { tail } => match outcome {
                Outcome::Unit { pts, .. } => Phase::Writing {
                    pts: rescale_ts(pts, &self.setup.encoder_base, &self.setup.output_base),
                    leg: if tail {
                        Leg::FilterDrain
                    } else {
                        Leg::Body
                    },
                },
                Outcome::Nothing => Phase::Pulling { tail },
                Outcome::Failed => if lenient {
                    skip = true;
                    Phase::Pulling { tail }
                } else {
                    failure = Some(ErrorKind::Encode);
                    Phase::Failed(ErrorKind::Encode)
                },
            },
            Phase::Writing { leg, .. } => match outcome {
                Outcome::Failed => {
                    failure = Some(ErrorKind::Mux);
                    Phase::Failed(ErrorKind::Mux)
                },
                _ => {
                    wrote = true;
                    match leg {
                        Leg::Body => Phase::Pulling { tail: false },
                        Leg::FilterDrain => Phase::Pulling { tail: true },
                        Leg::EncoderDrain => Phase::FlushingEncoder,
                    }
                },
            },
            Phase::FlushingFilter => match outcome {
                Outcome::Failed => {
                    failure = Some(ErrorKind::FilterGraph);
                    Phase::Failed(ErrorKind::FilterGraph)
                },
                _ => Phase::Pulling { tail: true },
            },
            Phase::FlushingEncoder => match outcome {
                Outcome::Unit { pts, .. } => Phase::Writing {
                    pts: rescale_ts(pts, &self.setup.encoder_base, &self.setup.output_base),
                    leg: Leg::EncoderDrain,
                },
                Outcome::Nothing => Phase::Trailer,
                Outcome::Failed => if lenient {
                    skip = true;
                    Phase::Trailer
                } else {
                    failure = Some(ErrorKind::Encode);
                    Phase::Failed(ErrorKind::Encode)
                },
            },
            Phase::Trailer => match outcome {
                Outcome::Failed => {
                    failure = Some(ErrorKind::Mux);
                    Phase::Failed(ErrorKind::Mux)
                },
                _ => Phase::Done,
            },
            Phase::Done => Phase::Done,
            Phase::Failed(kind) => Phase::Failed(kind),
        };
        self.phase = next;
        if skip {
            self.skipped = count_up(self.skipped);
        }
        if wrote {
            self.written = count_up(self.written);
        }
        match failure {
            Some(kind) => Err(Error::new(kind, name_of_action(due))),
            None => Ok(()),
        }
    }

    /// The filter graph of the session, which is ready.
    pub fn graph(&self) -> (g: &FilterGraph)
        ensures
            g@ == self@.graph,
            g@.stage == GraphStage::Ready,
    {
        proof {
            use_type_invariant(self);
        }
        &self.graph
    }

    /// The number of packets written.
    pub fn written(&self) -> (n: u64)
        ensures
            n == self@.written,
    {
        self.written
    }

    /// The number of packets and frames dropped after a failure of the
    /// decoder or the encoder.
    pub fn skipped(&self) -> (n: u64)
        ensures
            n == self@.skipped,
    {
        self.skipped
    }

    /// Whether the trailer is written.
    pub fn is_done(&self) -> (b: bool)
        ensures
            b == (self@.phase is Done),
    {
        match self.phase {
            Phase::Done => true,
            _ => false,
        }
    }

    /// The stage at which the run has failed, where it has.
    pub fn failure(&self) -> (f: Option<ErrorKind>)
        ensures
            f == (match self@.phase {
                Phase::Failed(kind) => Some(kind),
                _ => None,
            }),
    {
        match self.phase {
            Phase::Failed(kind) => Some(kind),
            _ => None,
        }
    }
}

/// A step changes nothing but the phase and the two counts, and it never
/// lowers a count.
pub proof fn lemma_step_keeps_setup(state: SessionState, outcome: Outcome)
    ensures
        ({
            let next = state.after(outcome);
            &&& next.stream == state.stream
            &&& next.output_stream == state.output_stream
            &&& next.policy == state.policy
            &&& next.stream_base == state.stream_base
            &&& next.decoder_base == state.decoder_base
            &&& next.encoder_base == state.encoder_base
            &&& next.output_base == state.output_base
            &&& next.graph == state.graph
            &&& next.written >= state.written
            &&& next.skipped >= state.skipped
        }),
{
}

/// The flush sequence runs in order and never turns back: the body, the end
/// signalled to the filter graph, the graph drained, the encoder drained,
/// the trailer, the end.
pub proof fn lemma_flush_sequence_in_order(state: SessionState, outcome: Outcome)
    ensures
        state.after(outcome).progress() >= state.progress(),
        state.after(outcome).progress() <= state.progress() + 1 || state.after(
            outcome,
        ).phase is Failed,
{
}

/// Flushing leaves nothing behind. While the graph is drained every frame it
/// hands out goes to the encoder, and the draining ends only when the graph
/// hands out none. While the encoder is drained every packet it hands out is
/// written, and the trailer follows only when the encoder hands out none.
/// Nothing but a failure under the strict policy comes between.
pub proof fn lemma_flush_is_complete(state: SessionState, outcome: Outcome)
    ensures
        state.phase == (Phase::Pulling { tail: true }) ==> (if outcome is Unit {
            state.after(outcome).phase == Phase::Encoding { tail: true }
        } else {
            state.after(outcome).phase == Phase::FlushingEncoder
        }),
        state.phase == (Phase::Encoding { tail: true }) && outcome is Unit ==> state.after(
            outcome,
        ).phase == (Phase::Writing {
            pts: state.output_ts(outcome->pts),
            leg: Leg::FilterDrain,
        }),
        state.phase == Phase::FlushingEncoder && outcome is Unit ==> state.after(outcome).phase
            == (Phase::Writing { pts: state.output_ts(outcome->pts), leg: Leg::EncoderDrain }),
        state.phase == Phase::FlushingEncoder && state.after(outcome).phase == Phase::Trailer
            ==> !(outcome is Unit),
        state.after(outcome).phase == Phase::Trailer && state.phase != Phase::Trailer
            ==> state.phase == Phase::FlushingEncoder,
        state.after(outcome).phase == Phase::FlushingEncoder && state.phase
            != Phase::FlushingEncoder ==> state.phase == (Phase::Pulling { tail: true })
            || state.phase is Writing,
{
}

/// The graph is not pushed into while it holds frames: a frame is pushed
/// only after a packet was read and decoded, and a packet is read only at the
/// start, after a packet that is skipped, or after a pull that found the
/// graph empty.
pub proof fn lemma_push_only_after_drain(state: SessionState, outcome: Outcome)
    ensures
        state.after(outcome).phase is Pushing ==> state.phase is Decoding && outcome is Unit,
        state.after(outcome).phase is Decoding ==> state.phase is Reading && outcome is Unit,
        state.after(outcome).phase is Reading ==> state.phase is Reading || state.phase
            is Decoding || (state.phase == (Phase::Pulling { tail: false }) && !(outcome
            is Unit)),
        state.phase is Pushing ==> state.after(outcome).phase == (Phase::Pulling { tail: false })
            || state.after(outcome).phase is Failed,
{
}

/// Every packet written is counted, and only a packet written is: the count
/// goes up by one with each step that writes a packet without failing.
pub proof fn lemma_written_counts_packets(state: SessionState, outcome: Outcome)
    ensures
        state.after(outcome).written == (if state.phase is Writing && !(outcome is Failed) {
            bump(state.written)
        } else {
            state.written
        }),
{
}

/// Once the body is written nothing more is: from the moment the trailer is
/// due no packet is read, decoded, encoded or written, whatever the steps
/// bring, and the count of packets written stays.
pub proof fn lemma_no_packet_after_flush(state: SessionState, outcomes: Seq<Outcome>)
    requires
        state.closing(),
    ensures
        state.after_all(outcomes).closing(),
        state.after_all(outcomes).written == state.written,
        state.after_all(outcomes).skipped == state.skipped,
        state.after_all(outcomes).due() is WriteTrailer || state.after_all(outcomes).due()
            is Finished || state.after_all(outcomes).due() is Abort,
    decreases outcomes.len(),
{
    if outcomes.len() > 0 {
        lemma_no_packet_after_flush(state, outcomes.drop_last());
    }
}

/// The input is read in one pass: once it has ended no packet is read,
/// decoded or pushed into the graph again, whatever the steps bring.
pub proof fn lemma_input_ends_once(state: SessionState, outcomes: Seq<Outcome>)
    requires
        state.progress() >= 2,
    ensures
        state.after_all(outcomes).progress() >= state.progress(),
        !(state.after_all(outcomes).due() is ReadPacket),
        !(state.after_all(outcomes).due() is Decode),
        !(state.after_all(outcomes).due() is PushFrame),
    decreases outcomes.len(),
{
    if outcomes.len() > 0 {
        lemma_input_ends_once(state, outcomes.drop_last());
        lemma_flush_sequence_in_order(state.after_all(outcomes.drop_last()), outcomes.last());
    }
}

/// `n` counted up `k` times.
pub open spec fn bump_by(n: u64, k: nat) -> u64 {
    if n + k <= u64::MAX {
        (n + k) as u64
    } else {
        u64::MAX
    }
}

/// What draining the encoder brings when it still holds the packets with
/// the given timestamps and every write succeeds: each packet in turn, then
/// nothing.
pub open spec fn encoder_drain(stamps: Seq<Option<i64>>) -> Seq<Outcome>
    decreases stamps.len(),
{
    if stamps.len() == 0 {
        seq![Outcome::Nothing]
    } else {
        seq![Outcome::Unit { stream: 0, pts: stamps.first() }, Outcome::Nothing] + encoder_drain(
            stamps.drop_first(),
        )
    }
}

/// What draining the graph brings when it still holds frames that the
/// encoder turns into the packets with the given timestamps, one for each
/// frame, and every write succeeds: for each frame the frame, its packet and
/// the write, then no frame.
pub open spec fn filter_drain(stamps: Seq<Option<i64>>) -> Seq<Outcome>
    decreases stamps.len(),
{
    if stamps.len() == 0 {
        seq![Outcome::Nothing]
    } else {
        seq![
            Outcome::Unit { stream: 0, pts: None },
            Outcome::Unit { stream: 0, pts: stamps.first() },
            Outcome::Nothing,
        ] + filter_drain(stamps.drop_first())
    }
}

/// Steps taken one after the other: the state after two runs of outcomes is
/// the state after the second run, begun where the first has led.
pub proof fn lemma_after_all_in_two(state: SessionState, first: Seq<Outcome>, second: Seq<Outcome>)
    ensures
        state.after_all(first + second) == state.after_all(first).after_all(second),
    decreases second.len(),
{
    if second.len() == 0 {
        assert(first + second =~= first);
    } else {
        lemma_after_all_in_two(state, first, second.drop_last());
        assert((first + second).drop_last() =~= first + second.drop_last());
        assert((first + second).last() == second.last());
    }
}

/// The state after one, two or three steps.
proof fn lemma_after_few(state: SessionState, a: Outcome, b: Outcome, c: Outcome)
    ensures
        state.after_all(seq![a]) == state.after(a),
        state.after_all(seq![a, b]) == state.after(a).after(b),
        state.after_all(seq![a, b, c]) == state.after(a).after(b).after(c),
{
    assert(seq![a].drop_last() =~= Seq::<Outcome>::empty());
    assert(seq![a, b].drop_last() =~= seq![a]);
    assert(seq![a, b, c].drop_last() =~= seq![a, b]);
    assert(state.after_all(Seq::<Outcome>::empty()) == state);
}

/// Flushing the encoder is complete: every packet the encoder still holds
/// is written, and then, not before, the trailer is due.
pub proof fn lemma_encoder_drain_writes_all(state: SessionState, stamps: Seq<Option<i64>>)
    requires
        state.phase == Phase::FlushingEncoder,
    ensures
        state.after_all(encoder_drain(stamps)) == (SessionState {
            phase: Phase::Trailer,
            written: bump_by(state.written, stamps.len()),
            ..state
        }),
    decreases stamps.len(),
{
    if stamps.len() == 0 {
        lemma_after_few(state, Outcome::Nothing, Outcome::Nothing, Outcome::Nothing);
    } else {
        let unit = Outcome::Unit { stream: 0, pts: stamps.first() };
        let head = seq![unit, Outcome::Nothing];
        lemma_after_few(state, unit, Outcome::Nothing, Outcome::Nothing);
        let next = state.after_all(head);
        assert(next == SessionState { written: bump(state.written), ..state });
        lemma_encoder_drain_writes_all(next, stamps.drop_first());
        lemma_after_all_in_two(state, head, encoder_drain(stamps.drop_first()));
    }
}

/// Draining the graph is complete: every frame the graph still holds is
/// encoded and its packet written, and then, not before, the encoder is
/// flushed.
pub proof fn lemma_filter_drain_writes_all(state: SessionState, stamps: Seq<Option<i64>>)
    requires
        state.phase == (Phase::Pulling { tail: true }),
    ensures
        state.after_all(filter_drain(stamps)) == (SessionState {
            phase: Phase::FlushingEncoder,
            written: bump_by(state.written, stamps.len()),
            ..state
        }),
    decreases stamps.len(),
{
    if stamps.len() == 0 {
        lemma_after_few(state, Outcome::Nothing, Outcome::Nothing, Outcome::Nothing);
    } else {
        let frame = Outcome::Unit { stream: 0, pts: None };
        let packet = Outcome::Unit { stream: 0, pts: stamps.first() };
        let head = seq![frame, packet, Outcome::Nothing];
        lemma_after_few(state, frame, packet, Outcome::Nothing);
        let next = state.after_all(head);
        assert(next == SessionState { written: bump(state.written), ..state });
        lemma_filter_drain_writes_all(next, stamps.drop_first());
        lemma_after_all_in_two(state, head, filter_drain(stamps.drop_first()));
    }
}

/// Every packet is written under the session's output stream, and with the
/// timestamp it left the encoder with, carried to the output stream's clock.
pub proof fn lemma_packets_are_stamped_for_the_output(state: SessionState, outcome: Outcome)
    ensures
        state.due() matches Action::WritePacket { stream, .. } ==> stream == state.output_stream,
        state.after(outcome).phase matches Phase::Writing { pts, .. } ==> outcome is Unit && pts
            == state.output_ts(outcome->pts) && (state.phase is Encoding || state.phase
            is FlushingEncoder),
{
}

/// A run that is over stays as it is.
pub proof fn lemma_ended_is_final(state: SessionState, outcome: Outcome)
    requires
        state.ended(),
    ensures
        state.after(outcome) == state,
        state.due() is Finished || state.due() is Abort,
{
}

/// Packets keep their order on the way out: of two timestamps on the
/// encoder's clock, the later one is not written as the earlier one.
pub proof fn lemma_output_timestamps_ordered(state: SessionState, first: i64, second: i64)
    requires
        state.clocks_valid(),
        first <= second,
    ensures
        rescaled(first as int, state.encoder_base, state.output_base) <= rescaled(
            second as int,
            state.encoder_base,
            state.output_base,
        ),
        state.output_ts(Some(first)) matches Some(a) ==> (state.output_ts(
            Some(second),
        ) matches Some(b) ==> a <= b),
{
    lemma_rescale_monotonic(first as int, second as int, state.encoder_base, state.output_base);
}

/// A session only ever stands on a ready graph: no step hands a frame to a
/// graph that is not built and validated.
pub proof fn lemma_graph_stays_ready(state: SessionState, outcomes: Seq<Outcome>)
    requires
        state.graph.stage == GraphStage::Ready,
    ensures
        state.after_all(outcomes).graph.stage == GraphStage::Ready,
    decreases outcomes.len(),
{
    if outcomes.len() > 0 {
        lemma_graph_stays_ready(state, outcomes.drop_last());
    }
}

} // verus!
