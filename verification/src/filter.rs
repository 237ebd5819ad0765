//! The plan of the filter graph between decoder and encoder, and the steps
//! of building it.

use vstd::prelude::*;
use vstd::string::StringExecFns;
use crate::error::{Error, ErrorKind};
use crate::params::{CodecCapabilities, SampleFormat, StreamParameters};
use crate::text::{decimal, has_nul, hexadecimal, push_decimal, push_hexadecimal};

verus! {

/// The filter expression that hands every frame on unchanged.
pub const PASSTHROUGH: &'static str = "anull";

/// The arguments that bind the graph's source node to a decoder: its time
/// base, sample rate, sample format and channel layout.
pub open spec fn source_args(p: StreamParameters) -> Seq<char> {
    "time_base="@ + decimal(p.time_base@.num as nat) + "/"@ + decimal(p.time_base@.den as nat)
        + ":sample_rate="@ + decimal(p.sample_rate as nat) + ":sample_fmt="@
        + p.sample_format.name_of() + ":channel_layout=0x"@ + hexadecimal(p.channel_layout as nat)
}

/// The arguments that bind the graph's source node to a decoder.
pub fn describe_source(p: &StreamParameters) -> (s: String)
    ensures
        s@ == source_args(*p),
{
    let mut s = String::from_str("time_base=");
    push_decimal(&mut s, p.time_base.num() as u64);
    s.append("/");
    push_decimal(&mut s, p.time_base.den() as u64);
    s.append(":sample_rate=");
    push_decimal(&mut s, p.sample_rate as u64);
    s.append(":sample_fmt=");
    s.append(p.sample_format.name());
    s.append(":channel_layout=0x");
    push_hexadecimal(&mut s, p.channel_layout);
    s
}

/// What the filter graph is built from.
#[derive(Clone, Debug)]
pub struct FilterPlan {
    /// The arguments of the source node.
    pub source_args: String,
    /// What the sink node hands out.
    pub sink_format: SampleFormat,
    pub sink_layout: u64,
    pub sink_rate: u32,
    /// The filter chain between source and sink.
    pub expression: String,
    /// The number of samples of every frame the sink hands out, where the
    /// encoder takes frames of one size only.
    pub frame_size: Option<u32>,
}

/// The frame size the sink is held to: the encoder's, where its codec is
/// known and takes frames of one size only.
pub open spec fn fixed_frame_size(
    codec: Option<&CodecCapabilities>,
    frame_size: u32,
) -> Option<u32> {
    match codec {
        Some(c) => if c.variable_frame_size {
            None
        } else {
            Some(frame_size)
        },
        None => None,
    }
}

/// Plans the graph that adapts the decoder's frames to the encoder.
///
/// The source node is bound to the decoder's parameters, the sink node to the
/// encoder's sample format, channel layout and sample rate, and `expression`
/// stands between them. An expression with a NUL character is no filter
/// chain.
pub fn plan_filter(
    expression: &str,
    decoder: &StreamParameters,
    encoder: &StreamParameters,
    codec: Option<&CodecCapabilities>,
    frame_size: u32,
) -> (r: Result<FilterPlan, Error>)
    ensures
        r.is_ok() <==> !expression@.contains('\0'),
        r matches Ok(plan) ==> {
            &&& plan.source_args@ == source_args(*decoder)
            &&& plan.sink_format == encoder.sample_format
            &&& plan.sink_layout == encoder.channel_layout
            &&& plan.sink_rate == encoder.sample_rate
            &&& plan.expression@ == expression@
            &&& plan.frame_size == fixed_frame_size(codec, frame_size)
        },
        r matches Err(e) ==> e.kind == ErrorKind::FilterGraph && e.cause@
            == "filter expression holds a NUL character"@,
{
    if has_nul(expression) {
        return Err(Error::new(ErrorKind::FilterGraph, "filter expression holds a NUL character"));
    }
    let fixed: Option<u32> = match codec {
        Some(c) => if c.variable_frame_size {
            None
        } else {
            Some(frame_size)
        },
        None => None,
    };
    Ok(
        FilterPlan {
            source_args: describe_source(decoder),
            sink_format: encoder.sample_format,
            sink_layout: encoder.channel_layout,
            sink_rate: encoder.sample_rate,
            expression: String::from_str(expression),
            frame_size: fixed,
        },
    )
}

/// How far the building of a graph has come.
#[derive(Clone, Copy, Debug, PartialEq, Eq, Structural)]
pub enum GraphStage {
    /// Nothing is built yet.
    Empty,
    /// The source node exists.
    SourceAdded,
    /// Source and sink node exist.
    SinkAdded,
    /// The sink node is bound to the encoder's parameters.
    SinkConfigured,
    /// The filter chain connects source and sink.
    Linked,
    /// The graph is validated; the sink's frame size is still to be fixed.
    Validated,
    /// Frames may flow.
    Ready,
    /// A step failed; the graph is of no use.
    Failed,
}

/// The next thing to do to a graph under construction.
#[derive(Clone, Copy, Debug, PartialEq, Eq, Structural)]
pub enum GraphStep {
    /// Add the source node with the plan's arguments.
    AddSource,
    /// Add the sink node.
    AddSink,
    /// Give the sink the plan's sample format, channel layout and sample rate.
    ConfigureSink,
    /// Connect source and sink through the plan's filter chain.
    Link,
    /// Validate the graph.
    Validate,
    /// Hold the sink to frames of this many samples.
    FixFrameSize(u32),
    /// Nothing: the graph is ready or has failed.
    Nothing,
}

/// The step that is due at a stage.
pub open spec fn step_at(stage: GraphStage, frame_size: Option<u32>) -> GraphStep {
    match stage {
        GraphStage::Empty => GraphStep::AddSource,
        GraphStage::SourceAdded => GraphStep::AddSink,
        GraphStage::SinkAdded => GraphStep::ConfigureSink,
        GraphStage::SinkConfigured => GraphStep::Link,
        GraphStage::Linked => GraphStep::Validate,
        GraphStage::Validated => match frame_size {
            Some(n) => GraphStep::FixFrameSize(n),
            None => GraphStep::Nothing,
        },
        GraphStage::Ready => GraphStep::Nothing,
        GraphStage::Failed => GraphStep::Nothing,
    }
}

/// The stage after the step that was due has succeeded (`ok`) or failed.
pub open spec fn stage_after(stage: GraphStage, frame_size: Option<u32>, ok: bool) -> GraphStage {
    match stage {
        GraphStage::Ready => GraphStage::Ready,
        GraphStage::Failed => GraphStage::Failed,
        _ => if !ok {
            GraphStage::Failed
        } else {
            match stage {
                GraphStage::Empty => GraphStage::SourceAdded,
                GraphStage::SourceAdded => GraphStage::SinkAdded,
                GraphStage::SinkAdded => GraphStage::SinkConfigured,
                GraphStage::SinkConfigured => GraphStage::Linked,
                GraphStage::Linked => if frame_size is Some {
                    GraphStage::Validated
                } else {
                    GraphStage::Ready
                },
                _ => GraphStage::Ready,
            }
        },
    }
}

/// The stage reached from `stage` after the steps with the given outcomes,
/// in order.
pub open spec fn stage_after_all(
    stage: GraphStage,
    frame_size: Option<u32>,
    outcomes: Seq<bool>,
) -> GraphStage
    decreases outcomes.len(),
{
    if outcomes.len() == 0 {
        stage
    } else {
        stage_after(
            stage_after_all(stage, frame_size, outcomes.drop_last()),
            frame_size,
            outcomes.last(),
        )
    }
}

/// The number of steps from an empty graph to a ready one.
pub open spec fn steps_needed(frame_size: Option<u32>) -> nat {
    if frame_size is Some {
        6
    } else {
        5
    }
}

/// The number of steps done at a stage.
pub open spec fn steps_done(stage: GraphStage, frame_size: Option<u32>) -> nat {
    match stage {
        GraphStage::Empty => 0,
        GraphStage::SourceAdded => 1,
        GraphStage::SinkAdded => 2,
        GraphStage::SinkConfigured => 3,
        GraphStage::Linked => 4,
        GraphStage::Validated => 5,
        GraphStage::Ready => steps_needed(frame_size),
        GraphStage::Failed => 0,
    }
}

/// The state of a filter graph: its plan and how far it is built.
pub struct GraphState {
    pub plan: FilterPlan,
    pub stage: GraphStage,
}

/// A filter graph under construction or in use.
///
/// It keeps count of the steps that built the graph, so that no frame is
/// handed to a graph that lacks a node, a link or its validation.
#[derive(Debug)]
pub struct FilterGraph {
    plan: FilterPlan,
    stage: GraphStage,
}

impl View for FilterGraph {
    type V = GraphState;

    closed spec fn view(&self) -> GraphState {
        GraphState { plan: self.plan, stage: self.stage }
    }
}

impl FilterGraph {
    /// Only a graph whose plan fixes a frame size waits for it after the
    /// validation.
    #[verifier::type_invariant]
    spec fn valid(self) -> bool {
        self.stage == GraphStage::Validated ==> self.plan.frame_size is Some
    }

    /// A graph of which nothing is built yet.
    pub fn new(plan: FilterPlan) -> (g: FilterGraph)
        ensures
            g@.plan == plan,
            g@.stage == GraphStage::Empty,
    {
        FilterGraph { plan, stage: GraphStage::Empty }
    }

    /// The plan the graph is built from.
    pub fn plan(&self) -> (p: &FilterPlan)
        ensures
            *p == self@.plan,
    {
        &self.plan
    }

    /// How far the graph is built.
    pub fn stage(&self) -> (s: GraphStage)
        ensures
            s == self@.stage,
    {
        self.stage
    }

    /// Whether frames may flow through the graph.
    pub fn is_ready(&self) -> (b: bool)
        ensures
            b == (self@.stage == GraphStage::Ready),
    {
        self.stage == GraphStage::Ready
    }

    /// The step that is due: nothing once the graph is ready or has failed,
    /// and only then.
    pub fn pending(&self) -> (s: GraphStep)
        ensures
            s == step_at(self@.stage, self@.plan.frame_size),
            s == GraphStep::Nothing <==> (self@.stage == GraphStage::Ready || self@.stage
                == GraphStage::Failed),
    {
        proof {
            use_type_invariant(self);
        }
        match self.stage {
            GraphStage::Empty => GraphStep::AddSource,
            GraphStage::SourceAdded => GraphStep::AddSink,
            GraphStage::SinkAdded => GraphStep::ConfigureSink,
            GraphStage::SinkConfigured => GraphStep::Link,
            GraphStage::Linked => GraphStep::Validate,
            GraphStage::Validated => match self.plan.frame_size {
                Some(n) => GraphStep::FixFrameSize(n),
                None => GraphStep::Nothing,
            },
            GraphStage::Ready => GraphStep::Nothing,
            GraphStage::Failed => GraphStep::Nothing,
        }
    }

    /// Records that the step that was due has succeeded (`ok`) or failed.
    ///
    /// A failed step fails the graph for good. The failure is reported once,
    /// by the call that records it.
    pub fn completed(&mut self, ok: bool) -> (r: Result<(), Error>)
        ensures
            final(self)@.plan == old(self)@.plan,
            final(self)@.stage == stage_after(old(self)@.stage, old(self)@.plan.frame_size, ok),
            r.is_err() <==> (final(self)@.stage == GraphStage::Failed && old(self)@.stage
                != GraphStage::Failed),
            r matches Err(e) ==> e.kind == ErrorKind::FilterGraph && e.cause@ == step_name(
                step_at(old(self)@.stage, old(self)@.plan.frame_size),
            ),
    {
        proof {
            use_type_invariant(&*self);
        }
        let due: GraphStep = self.pending();
        let fixed: bool = self.plan.frame_size.is_some();
        match self.stage {
            GraphStage::Ready => Ok(()),
            GraphStage::Failed => Ok(()),
            _ => {
                if !ok {
                    self.stage = GraphStage::Failed;
                    Err(Error::new(ErrorKind::FilterGraph, name_of_step(due)))
                } else {
                    self.stage =
                    match self.stage {
                        GraphStage::Empty => GraphStage::SourceAdded,
                        GraphStage::SourceAdded => GraphStage::SinkAdded,
                        GraphStage::SinkAdded => GraphStage::SinkConfigured,
                        GraphStage::SinkConfigured => GraphStage::Linked,
                        GraphStage::Linked => if fixed {
                            GraphStage::Validated
                        } else {
                            GraphStage::Ready
                        },
                        _ => GraphStage::Ready,
                    };
                    Ok(())
                }
            },
        }
    }
}

/// What a step is called in the cause of a failure.
pub open spec fn step_name(step: GraphStep) -> Seq<char> {
    match step {
        GraphStep::AddSource => "adding the source node failed"@,
        GraphStep::AddSink => "adding the sink node failed"@,
        GraphStep::ConfigureSink => "configuring the sink node failed"@,
        GraphStep::Link => "linking source and sink failed"@,
        GraphStep::Validate => "validation failed"@,
        GraphStep::FixFrameSize(_) => "fixing the frame size failed"@,
        GraphStep::Nothing => "nothing was due"@,
    }
}

fn name_of_step(step: GraphStep) -> (s: &'static str)
    ensures
        s@ == step_name(step),
{
    match step {
        GraphStep::AddSource => "adding the source node failed",
        GraphStep::AddSink => "adding the sink node failed",
        GraphStep::ConfigureSink => "configuring the sink node failed",
        GraphStep::Link => "linking source and sink failed",
        GraphStep::Validate => "validation failed",
        GraphStep::FixFrameSize(_) => "fixing the frame size failed",
        GraphStep::Nothing => "nothing was due",
    }
}

/// While no step has failed and the graph is not ready, the stage counts the
/// outcomes, all of them successes.
proof fn lemma_stage_counts_steps(frame_size: Option<u32>, outcomes: Seq<bool>)
    ensures
        ({
            let stage = stage_after_all(GraphStage::Empty, frame_size, outcomes);
            let all_ok = forall|i: int| 0 <= i < outcomes.len() ==> outcomes[i];
            &&& stage != GraphStage::Failed && stage != GraphStage::Ready ==> all_ok && steps_done(
                stage,
                frame_size,
            ) == outcomes.len() && outcomes.len() < steps_needed(frame_size)
            &&& stage == GraphStage::Ready ==> outcomes.len() >= steps_needed(frame_size)
                && forall|i: int| 0 <= i < steps_needed(frame_size) ==> outcomes[i]
            &&& all_ok && outcomes.len() >= steps_needed(frame_size) ==> stage
                == GraphStage::Ready
            &&& all_ok ==> stage != GraphStage::Failed
        }),
    decreases outcomes.len(),
{
    if outcomes.len() > 0 {
        let front = outcomes.drop_last();
        lemma_stage_counts_steps(frame_size, front);
        assert forall|i: int| 0 <= i < front.len() implies front[i] == outcomes[i] by {}
        let before = stage_after_all(GraphStage::Empty, frame_size, front);
        if forall|i: int| 0 <= i < outcomes.len() ==> outcomes[i] {
            assert forall|i: int| 0 <= i < front.len() implies front[i] by {
                assert(front[i] == outcomes[i]);
            }
            assert(outcomes[outcomes.len() - 1]);
        }
        if before != GraphStage::Failed && before != GraphStage::Ready && outcomes.last() {
            assert forall|i: int| 0 <= i < outcomes.len() implies outcomes[i] by {
                if i < front.len() {
                    assert(front[i] == outcomes[i]);
                }
            }
        }
        if before == GraphStage::Ready {
            assert forall|i: int| 0 <= i < steps_needed(frame_size) implies outcomes[i] by {
                assert(front[i] == outcomes[i]);
            }
        }
    }
}

/// A graph is ready exactly when every step of its construction has
/// succeeded, in order: source node, sink node, the sink's parameters, the
/// link, the validation and, where the plan fixes one, the frame size.
pub proof fn lemma_ready_after_every_step(frame_size: Option<u32>, outcomes: Seq<bool>)
    ensures
        stage_after_all(GraphStage::Empty, frame_size, outcomes) == GraphStage::Ready <==> (
        outcomes.len() >= steps_needed(frame_size) && forall|i: int|
            0 <= i < steps_needed(frame_size) ==> outcomes[i]),
    decreases outcomes.len(),
{
    lemma_stage_counts_steps(frame_size, outcomes);
    let n = steps_needed(frame_size);
    if outcomes.len() >= n && (forall|i: int| 0 <= i < n ==> outcomes[i]) {
        lemma_ready_stays(frame_size, outcomes, n);
    }
}

/// Once the first `n` outcomes have made the graph ready, later outcomes
/// change nothing.
proof fn lemma_ready_stays(frame_size: Option<u32>, outcomes: Seq<bool>, n: nat)
    requires
        n == steps_needed(frame_size),
        outcomes.len() >= n,
        forall|i: int| 0 <= i < n ==> outcomes[i],
    ensures
        stage_after_all(GraphStage::Empty, frame_size, outcomes) == GraphStage::Ready,
    decreases outcomes.len(),
{
    if outcomes.len() == n {
        lemma_stage_counts_steps(frame_size, outcomes);
    } else {
        let front = outcomes.drop_last();
        assert forall|i: int| 0 <= i < n implies front[i] by {
            assert(front[i] == outcomes[i]);
        }
        lemma_ready_stays(frame_size, front, n);
    }
}

/// A failed graph stays failed, and a ready graph stays ready.
pub proof fn lemma_final_stages(stage: GraphStage, frame_size: Option<u32>, ok: bool)
    requires
        stage == GraphStage::Ready || stage == GraphStage::Failed,
    ensures
        stage_after(stage, frame_size, ok) == stage,
        step_at(stage, frame_size) == GraphStep::Nothing,
{
}

} // verus!
