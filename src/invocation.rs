use crate::bindings::{bind_spec, bind_spec_spec, check_bindings, slots_agree};
use crate::buffers::{buffer_plan_spec, plan_buffers, BufferPlan};
use crate::error::HarnessError;
use crate::grid::{lemma_size_nonneg, size_for_spec, ElementLayout, GridConfig};
use crate::pipeline::{check_entry_point, entry_point_spec};
use vstd::prelude::*;

verus! {

/// What one invocation is fixed on before it starts.
#[derive(Clone, Copy, Debug, PartialEq, Eq, Structural)]
pub struct HarnessConfig {
    pub grid: GridConfig,
    pub in_layout: ElementLayout,
    pub out_layout: ElementLayout,
    /// Length of the caller's input bytes.
    pub input_len: u64,
}

impl HarnessConfig {
    pub open spec fn wf(self) -> bool {
        self.grid.wf()
    }

    /// Bytes of the output and staging buffers.
    pub open spec fn output_size(self) -> int {
        size_for_spec(self.out_layout, self.grid)
    }
}

/// Where an invocation stands.
#[derive(Clone, Copy, Debug, PartialEq, Eq, Structural)]
pub enum Stage {
    Uninitialized,
    DeviceReady,
    BuffersAllocated,
    PipelineReady,
    Dispatched,
    Submitted,
    Mapped,
    Read,
    Unmapped,
    Failed(HarnessError),
}

/// The outcome of the last action, reported by whoever drives the device.
#[derive(Debug)]
pub enum Event {
    /// No compute-capable adapter exists.
    AdapterUnavailable,
    /// The adapter could not produce a logical device.
    DeviceCreationFailed,
    /// A device and its queue are ready; its largest buffer has this size.
    DeviceAcquired { max_buffer_size: u64 },
    /// The three buffers of the plan exist.
    BuffersCreated,
    /// The kernel's entry points and the binding slots it uses.
    KernelInspected { entry_points: Vec<String>, slots: Vec<u32> },
    /// The pipeline is compiled and the commands are recorded.
    CommandsRecorded,
    /// The recorded commands were handed to the queue.
    Submitted,
    /// All submitted work finished and the staging buffer is mapped.
    MapGranted,
    /// The device refused to map the staging buffer.
    MapRejected,
    /// The bytes of the mapped staging buffer.
    BytesRead { bytes: Vec<u8> },
    /// The mapping is released.
    Unmapped,
}

/// What the driver is to do next.
#[derive(Clone, Copy, Debug, PartialEq, Eq, Structural)]
pub enum Action {
    /// Select an adapter and create a device and queue.
    AcquireDevice,
    /// Create the buffers of the plan; the input from the caller's bytes.
    CreateBuffers(BufferPlan),
    /// Report the kernel's entry points and used binding slots.
    InspectKernel,
    /// Compile the pipeline with the binding layout and overrides, and record
    /// the command sequence.
    BuildAndRecord,
    /// Submit the recorded commands.
    Submit,
    /// Wait for all submitted work, then map the staging buffer for reading.
    WaitAndMap,
    /// Copy the mapped bytes out.
    ReadMapped,
    /// Release the mapping.
    Unmap,
    /// Done: the output is ready.
    Finish,
    /// Stop: the invocation failed.
    Abort(HarnessError),
}

/// The mathematical state of an invocation.
pub struct InvocationView {
    pub config: HarnessConfig,
    pub stage: Stage,
    pub plan: Option<BufferPlan>,
    pub output: Seq<u8>,
}

pub open spec fn initial_state(config: HarnessConfig) -> InvocationView {
    InvocationView { config, stage: Stage::Uninitialized, plan: None, output: Seq::empty() }
}

pub open spec fn has_entry_point(entry_points: Seq<String>) -> bool {
    exists|i: int| 0 <= i < entry_points.len() && (#[trigger] entry_points[i])@ == entry_point_spec()
}

pub open spec fn with_stage(s: InvocationView, stage: Stage) -> InvocationView {
    InvocationView { stage, ..s }
}

/// The state after `ev`. Terminal stages stay as they are, and an event that
/// does not answer the current stage's action changes nothing.
pub open spec fn step_spec(s: InvocationView, ev: Event) -> InvocationView {
    let c = s.config;
    match (s.stage, ev) {
        (Stage::Uninitialized, Event::AdapterUnavailable) => with_stage(
            s,
            Stage::Failed(HarnessError::AdapterUnavailable),
        ),
        (Stage::Uninitialized, Event::DeviceCreationFailed) => with_stage(
            s,
            Stage::Failed(HarnessError::DeviceCreationFailed),
        ),
        (Stage::Uninitialized, Event::DeviceAcquired { max_buffer_size }) => {
            if c.output_size() > max_buffer_size {
                with_stage(s, Stage::Failed(HarnessError::BufferSizeExceedsLimit))
            } else {
                InvocationView {
                    stage: Stage::DeviceReady,
                    plan: Some(buffer_plan_spec(c.input_len, c.output_size() as u64)),
                    ..s
                }
            }
        },
        (Stage::DeviceReady, Event::BuffersCreated) => with_stage(s, Stage::BuffersAllocated),
        (Stage::BuffersAllocated, Event::KernelInspected { entry_points, slots }) => {
            if !has_entry_point(entry_points@) {
                with_stage(s, Stage::Failed(HarnessError::ShaderCompileError))
            } else if !slots_agree(bind_spec_spec(c.in_layout, c.out_layout), slots@) {
                with_stage(s, Stage::Failed(HarnessError::BindGroupMismatch))
            } else {
                with_stage(s, Stage::PipelineReady)
            }
        },
        (Stage::PipelineReady, Event::CommandsRecorded) => with_stage(s, Stage::Dispatched),
        (Stage::Dispatched, Event::Submitted) => with_stage(s, Stage::Submitted),
        (Stage::Submitted, Event::MapGranted) => with_stage(s, Stage::Mapped),
        (Stage::Submitted, Event::MapRejected) => with_stage(
            s,
            Stage::Failed(HarnessError::MapFailed),
        ),
        (Stage::Mapped, Event::BytesRead { bytes }) => {
            if bytes@.len() == c.output_size() {
                InvocationView { stage: Stage::Read, output: bytes@, ..s }
            } else {
                with_stage(s, Stage::Failed(HarnessError::MapFailed))
            }
        },
        (Stage::Read, Event::Unmapped) => with_stage(s, Stage::Unmapped),
        _ => s,
    }
}

/// The state after each of `events` in turn.
pub open spec fn run_spec(s: InvocationView, events: Seq<Event>) -> InvocationView
    decreases events.len(),
{
    if events.len() == 0 {
        s
    } else {
        run_spec(step_spec(s, events[0]), events.drop_first())
    }
}

/// The action that a state asks for.
pub open spec fn action_spec(s: InvocationView) -> Action {
    match s.stage {
        Stage::Uninitialized => Action::AcquireDevice,
        Stage::DeviceReady => Action::CreateBuffers(s.plan->Some_0),
        Stage::BuffersAllocated => Action::InspectKernel,
        Stage::PipelineReady => Action::BuildAndRecord,
        Stage::Dispatched => Action::Submit,
        Stage::Submitted => Action::WaitAndMap,
        Stage::Mapped => Action::ReadMapped,
        Stage::Read => Action::Unmap,
        Stage::Unmapped => Action::Finish,
        Stage::Failed(e) => Action::Abort(e),
    }
}

/// What holds of every state reached from `initial_state`.
pub open spec fn state_inv(s: InvocationView) -> bool {
    &&& s.config.wf()
    &&& match s.stage {
        Stage::Uninitialized | Stage::Failed(_) => true,
        _ => {
            &&& 0 <= s.config.output_size() <= u64::MAX
            &&& s.plan == Some(buffer_plan_spec(s.config.input_len, s.config.output_size() as u64))
        },
    }
    &&& (s.stage is Read || s.stage is Unmapped) ==> s.output.len() == s.config.output_size()
}

/// One invocation of the harness, driven one event at a time.
pub struct Invocation {
    config: HarnessConfig,
    stage: Stage,
    plan: Option<BufferPlan>,
    output: Vec<u8>,
}

impl View for Invocation {
    type V = InvocationView;

    closed spec fn view(&self) -> InvocationView {
        InvocationView {
            config: self.config,
            stage: self.stage,
            plan: self.plan,
            output: self.output@,
        }
    }
}

impl Invocation {
    /// A fresh invocation and the first action it asks for.
    pub fn new(config: HarnessConfig) -> (r: (Invocation, Action))
        requires
            config.wf(),
        ensures
            r.0@ == initial_state(config),
            r.1 == action_spec(r.0@),
            state_inv(r.0@),
    {
        let inv = Invocation { config, stage: Stage::Uninitialized, plan: None, output: Vec::new() };
        (inv, Action::AcquireDevice)
    }

    pub fn stage(&self) -> (r: Stage)
        ensures
            r == self@.stage,
    {
        self.stage
    }

    pub fn config(&self) -> (r: HarnessConfig)
        ensures
            r == self@.config,
    {
        self.config
    }

    pub fn plan(&self) -> (r: Option<BufferPlan>)
        ensures
            r == self@.plan,
    {
        self.plan
    }

    /// The bytes read back; empty until the `Read` stage.
    pub fn output(&self) -> (r: &Vec<u8>)
        ensures
            r@ == self@.output,
    {
        &self.output
    }

    /// Moves the output out once the invocation has finished; `None` in any
    /// other stage.
    pub fn into_output(self) -> (r: Option<Vec<u8>>)
        ensures
            r is Some <==> self@.stage is Unmapped,
            r matches Some(o) ==> o@ == self@.output,
    {
        match self.stage {
            Stage::Unmapped => Some(self.output),
            _ => None,
        }
    }

    /// Takes the outcome of the last action and gives the next action.
    pub fn step(&mut self, ev: Event) -> (r: Action)
        requires
            state_inv(old(self)@),
        ensures
            final(self)@ == step_spec(old(self)@, ev),
            r == action_spec(final(self)@),
            state_inv(final(self)@),
    {
        let c = self.config;
        proof {
            lemma_size_nonneg(c.out_layout, c.grid);
        }
        match (self.stage, ev) {
            (Stage::Uninitialized, Event::AdapterUnavailable) => {
                self.stage = Stage::Failed(HarnessError::AdapterUnavailable);
            },
            (Stage::Uninitialized, Event::DeviceCreationFailed) => {
                self.stage = Stage::Failed(HarnessError::DeviceCreationFailed);
            },
            (Stage::Uninitialized, Event::DeviceAcquired { max_buffer_size }) => {
                match plan_buffers(c.input_len, &c.out_layout, &c.grid, max_buffer_size) {
                    Ok(p) => {
                        self.stage = Stage::DeviceReady;
                        self.plan = Some(p);
                    },
                    Err(e) => {
                        self.stage = Stage::Failed(e);
                    },
                }
            },
            (Stage::DeviceReady, Event::BuffersCreated) => {
                self.stage = Stage::BuffersAllocated;
            },
            (Stage::BuffersAllocated, Event::KernelInspected { entry_points, slots }) => {
                match check_entry_point(&entry_points) {
                    Err(e) => {
                        self.stage = Stage::Failed(e);
                    },
                    Ok(()) => {
                        let declared = bind_spec(&c.in_layout, &c.out_layout);
                        match check_bindings(&declared, &slots) {
                            Err(e) => {
                                self.stage = Stage::Failed(e);
                            },
                            Ok(()) => {
                                self.stage = Stage::PipelineReady;
                            },
                        }
                    },
                }
            },
            (Stage::PipelineReady, Event::CommandsRecorded) => {
                self.stage = Stage::Dispatched;
            },
            (Stage::Dispatched, Event::Submitted) => {
                self.stage = Stage::Submitted;
            },
            (Stage::Submitted, Event::MapGranted) => {
                self.stage = Stage::Mapped;
            },
            (Stage::Submitted, Event::MapRejected) => {
                self.stage = Stage::Failed(HarnessError::MapFailed);
            },
            (Stage::Mapped, Event::BytesRead { bytes }) => {
                let expected = match self.plan {
                    Some(p) => p.staging.size,
                    None => 0,
                };
                if bytes.len() as u64 == expected {
                    self.stage = Stage::Read;
                    self.output = bytes;
                } else {
                    self.stage = Stage::Failed(HarnessError::MapFailed);
                }
            },
            (Stage::Read, Event::Unmapped) => {
                self.stage = Stage::Unmapped;
            },
            _ => {},
        }
        self.action()
    }

    /// The action that the current stage asks for.
    pub fn action(&self) -> (r: Action)
        requires
            state_inv(self@),
        ensures
            r == action_spec(self@),
    {
        match self.stage {
            Stage::Uninitialized => Action::AcquireDevice,
            Stage::DeviceReady => match self.plan {
                Some(p) => Action::CreateBuffers(p),
                None => Action::AcquireDevice,
            },
            Stage::BuffersAllocated => Action::InspectKernel,
            Stage::PipelineReady => Action::BuildAndRecord,
            Stage::Dispatched => Action::Submit,
            Stage::Submitted => Action::WaitAndMap,
            Stage::Mapped => Action::ReadMapped,
            Stage::Read => Action::Unmap,
            Stage::Unmapped => Action::Finish,
            Stage::Failed(e) => Action::Abort(e),
        }
    }
}

/// The events of a run in which every device step succeeds.
pub open spec fn successful_events(
    max_buffer_size: u64,
    entry_points: Vec<String>,
    slots: Vec<u32>,
    bytes: Vec<u8>,
) -> Seq<Event> {
    seq![
        Event::DeviceAcquired { max_buffer_size },
        Event::BuffersCreated,
        Event::KernelInspected { entry_points, slots },
        Event::CommandsRecorded,
        Event::Submitted,
        Event::MapGranted,
        Event::BytesRead { bytes },
        Event::Unmapped,
    ]
}

proof fn lemma_run_first(s: InvocationView, events: Seq<Event>)
    requires
        events.len() > 0,
    ensures
        run_spec(s, events) == run_spec(step_spec(s, events[0]), events.drop_first()),
{
}

/// Every step keeps the invariant.
pub proof fn lemma_step_inv(s: InvocationView, ev: Event)
    requires
        state_inv(s),
    ensures
        state_inv(step_spec(s, ev)),
{
    lemma_size_nonneg(s.config.out_layout, s.config.grid);
}

/// Every state reached from a well-formed one is well-formed.
pub proof fn lemma_run_inv(s: InvocationView, events: Seq<Event>)
    requires
        state_inv(s),
    ensures
        state_inv(run_spec(s, events)),
        run_spec(s, events).config == s.config,
    decreases events.len(),
{
    if events.len() > 0 {
        lemma_step_inv(s, events[0]);
        lemma_run_inv(step_spec(s, events[0]), events.drop_first());
    }
}

/// A failed invocation stays failed, whatever comes after.
pub proof fn lemma_failed_stays(s: InvocationView, events: Seq<Event>)
    requires
        s.stage is Failed,
    ensures
        run_spec(s, events) == s,
    decreases events.len(),
{
    if events.len() > 0 {
        lemma_failed_stays(step_spec(s, events[0]), events.drop_first());
    }
}

/// Whatever the kernel does, a finished invocation returns exactly one
/// output element's minimum size per invocation of the grid.
pub proof fn lemma_output_length(config: HarnessConfig, events: Seq<Event>)
    requires
        config.wf(),
    ensures
        ({
            let s = run_spec(initial_state(config), events);
            s.stage is Unmapped ==> s.output.len() == config.out_layout.min_size
                * config.grid.total_invocations()
        }),
{
    lemma_run_inv(initial_state(config), events);
}

/// Where the output would not fit the device's largest buffer, the
/// invocation fails with `BufferSizeExceedsLimit` as soon as the device is
/// known, and no later state asks for buffers to be created.
pub proof fn lemma_oversize_fails_before_allocation(
    config: HarnessConfig,
    max_buffer_size: u64,
    events: Seq<Event>,
)
    requires
        config.wf(),
        config.output_size() > max_buffer_size,
    ensures
        forall|k: int|
            1 <= k <= events.len() + 1 ==> {
                let s = #[trigger] run_spec(
                    initial_state(config),
                    (seq![Event::DeviceAcquired { max_buffer_size }] + events).take(k),
                );
                &&& s.stage == Stage::Failed(HarnessError::BufferSizeExceedsLimit)
                &&& !(action_spec(s) is CreateBuffers)
            },
{
    let all = seq![Event::DeviceAcquired { max_buffer_size }] + events;
    let failed = step_spec(initial_state(config), Event::DeviceAcquired { max_buffer_size });
    assert(failed.stage == Stage::Failed(HarnessError::BufferSizeExceedsLimit));
    assert forall|k: int| 1 <= k <= events.len() + 1 implies #[trigger] run_spec(
        initial_state(config),
        all.take(k),
    ) == failed by {
        let part = all.take(k);
        assert(part[0] == Event::DeviceAcquired { max_buffer_size });
        lemma_run_first(initial_state(config), part);
        lemma_failed_stays(failed, part.drop_first());
    }
}

/// The output of a successful run is the bytes read back from the staging
/// buffer, unchanged; the device limit and the kernel's reported interface
/// play no part in it. So two successful runs whose device returned the same
/// staging bytes give byte-identical output.
pub proof fn lemma_output_is_read_back(
    config: HarnessConfig,
    max1: u64,
    max2: u64,
    entry_points1: Vec<String>,
    entry_points2: Vec<String>,
    slots1: Vec<u32>,
    slots2: Vec<u32>,
    bytes1: Vec<u8>,
    bytes2: Vec<u8>,
)
    requires
        config.wf(),
        run_spec(
            initial_state(config),
            successful_events(max1, entry_points1, slots1, bytes1),
        ).stage is Unmapped,
        run_spec(
            initial_state(config),
            successful_events(max2, entry_points2, slots2, bytes2),
        ).stage is Unmapped,
        bytes1@ == bytes2@,
    ensures
        run_spec(initial_state(config), successful_events(max1, entry_points1, slots1, bytes1)).output
            == bytes1@,
        run_spec(initial_state(config), successful_events(max1, entry_points1, slots1, bytes1)).output
            == run_spec(
            initial_state(config),
            successful_events(max2, entry_points2, slots2, bytes2),
        ).output,
{
    lemma_successful_output(config, max1, entry_points1, slots1, bytes1);
    lemma_successful_output(config, max2, entry_points2, slots2, bytes2);
}

proof fn lemma_successful_output(
    config: HarnessConfig,
    max: u64,
    entry_points: Vec<String>,
    slots: Vec<u32>,
    bytes: Vec<u8>,
)
    requires
        config.wf(),
        run_spec(initial_state(config), successful_events(max, entry_points, slots, bytes)).stage is Unmapped,
    ensures
        run_spec(initial_state(config), successful_events(max, entry_points, slots, bytes)).output
            == bytes@,
{
    let e0 = successful_events(max, entry_points, slots, bytes);
    let s0 = initial_state(config);
    lemma_run_first(s0, e0);
    let (s1, e1) = (step_spec(s0, e0[0]), e0.drop_first());
    lemma_run_first(s1, e1);
    let (s2, e2) = (step_spec(s1, e1[0]), e1.drop_first());
    lemma_run_first(s2, e2);
    let (s3, e3) = (step_spec(s2, e2[0]), e2.drop_first());
    lemma_run_first(s3, e3);
    let (s4, e4) = (step_spec(s3, e3[0]), e3.drop_first());
    lemma_run_first(s4, e4);
    let (s5, e5) = (step_spec(s4, e4[0]), e4.drop_first());
    lemma_run_first(s5, e5);
    let (s6, e6) = (step_spec(s5, e5[0]), e5.drop_first());
    lemma_run_first(s6, e6);
    let (s7, e7) = (step_spec(s6, e6[0]), e6.drop_first());
    lemma_run_first(s7, e7);
    let (s8, e8) = (step_spec(s7, e7[0]), e7.drop_first());
    assert(e8.len() == 0);
    assert(run_spec(s0, e0) == s8);
    assert(e6[0] == Event::BytesRead { bytes });
    assert(e7[0] == Event::Unmapped);
    if s6.stage is Failed {
        lemma_failed_stays(s6, e6);
    }
}

} // verus!
