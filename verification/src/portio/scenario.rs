//! The decisions of a multi-vCPU scenario as a state machine. A scenario is a script of stages;
//! each stage names the vCPU it concerns, what the host must observe, and the name under which a
//! failed observation is reported. The host runs the loop: it performs the action the machine
//! asks for (run a vCPU, read a register, read guest memory, act on the VM), hands back what it
//! saw as an event, and the machine either accepts it and asks for the next stage, or fails the
//! scenario with the stage's error.
use crate::error::{Error, HostEnvironmentError, HostIoCause};
use crate::portio::two_vcpu_init_sipi_fixture::ApLongModeState;
use crate::portio::vcpu_checks::{
    ap_long_mode_valid, is_debug_output, startup_state_valid, vcpu_check_error, ApLongModeRegisters,
    ApStartupState, X86_RFLAGS_INTERRUPT_ENABLE, X86_RFLAGS_RESERVED_BIT,
};
use crate::portio::DEBUG_PORT;
use crate::vcpu::{PortIoDirection, PortIoExit, VcpuExit};
use vstd::prelude::*;

verus! {

/// Something the host does to the VM rather than to a vCPU.
#[derive(Debug, Clone, Copy, PartialEq, Eq)]
pub enum HostOperation {
    /// Wait for the guest's write to the doorbell registered under this index; the event is the
    /// number of writes the eventfd counted.
    WaitDoorbell(u8),
    /// Raise the interrupt routed through the irqfd registered under this index.
    RaiseInterrupt(u8),
    /// Signal the scenario's MSI; the event is the number of deliveries the host reported.
    SignalMsi,
    /// Stop the fallback-interrupt watchdog; the event is the number of times it fired.
    StopWatchdog,
    /// Register a generation of doorbell and interrupt routes rebuilt from the checkpoint.
    RegisterGeneration,
    /// Release the routes of the current generation.
    ReleaseGeneration,
}

/// What the host must observe at a stage.
#[derive(Debug, Clone, Copy, PartialEq, Eq)]
pub enum StageCheck {
    /// Run the vCPU: it must exit with a one-byte write of this value to the debug port, which
    /// the port bus took as output.
    DebugOutput(u8),
    /// Run the vCPU: it must exit on HLT.
    Halt,
    /// RFLAGS must have bit 1 set and the interrupt flag clear.
    InterruptsDisabled,
    /// RFLAGS must have bit 1 and the interrupt flag set.
    InterruptsEnabled,
    /// The multiprocessing state must be this one.
    MpState(u32),
    /// The accepted INIT/SIPI start must leave the processor runnable at the trampoline.
    SipiStartup,
    /// The processor must be in the fixture's long-mode state.
    LongMode,
    /// The IDTR must hold this base and limit.
    Idt { base: u64, limit: u16 },
    /// The guest byte at this address must hold this value.
    GuestByte { address: u64, expected: u8 },
    /// The guest quadword at this address must hold this value.
    GuestQword { address: u64, expected: u64 },
    /// The operation must report exactly this count.
    HostCount { operation: HostOperation, expected: u64 },
    /// The operation must be performed.
    Host(HostOperation),
}

#[derive(Debug, Clone, Copy, PartialEq, Eq)]
pub struct Stage {
    pub vcpu: u16,
    pub check: StageCheck,
    pub name: &'static str,
    /// Whether a failure is reported against the VM rather than against the vCPU.
    pub vm_error: bool,
}

/// A check of the VM that failed at `stage`.
pub open spec fn vm_check_error(stage: &'static str) -> Error {
    Error::HostEnvironment(HostEnvironmentError::VmOperation { operation: stage, source: HostIoCause::InvalidData })
}

/// The error a failed observation at the stage is reported with.
pub open spec fn spec_stage_error(stage: Stage) -> Error {
    if stage.vm_error {
        vm_check_error(stage.name)
    } else {
        vcpu_check_error(stage.vcpu, stage.name)
    }
}

fn stage_error(stage: &Stage) -> (r: Error)
    ensures r == spec_stage_error(*stage),
{
    if stage.vm_error {
        Error::HostEnvironment(HostEnvironmentError::VmOperation { operation: stage.name, source: HostIoCause::InvalidData })
    } else {
        crate::portio::vcpu_checks::check_error(stage.vcpu, stage.name)
    }
}

/// What the host saw after performing an action.
#[derive(Debug, Clone, PartialEq, Eq)]
pub enum ScenarioEvent {
    /// A vCPU run ended with this exit; for a port-I/O exit, the exit and whether the port bus
    /// serviced it as output.
    Exited { exit: VcpuExit, io: Option<PortIoExit>, output: bool },
    Rflags(u64),
    MpState(u32),
    Startup(ApStartupState),
    LongModeRegisters(ApLongModeRegisters),
    Idt { base: u64, limit: u16 },
    GuestByte(u8),
    GuestQword(u64),
    Count(u64),
    Performed,
}

/// What the machine asks the host to do next.
#[derive(Debug, Clone, PartialEq, Eq)]
pub enum ScenarioAction {
    Run(u16),
    ReadRflags(u16),
    ReadMpState(u16),
    /// Accept the INIT/SIPI start of the vCPU and read its state.
    ReadStartupState(u16),
    ReadLongModeRegisters(u16),
    ReadIdt(u16),
    ReadGuestByte(u64),
    ReadGuestQword(u64),
    Perform(HostOperation),
    /// The scenario failed with this error.
    Fail(Error),
    /// Every stage was observed.
    Finish,
}

pub open spec fn spec_action_for(stage: Stage) -> ScenarioAction {
    match stage.check {
        StageCheck::DebugOutput(_) => ScenarioAction::Run(stage.vcpu),
        StageCheck::Halt => ScenarioAction::Run(stage.vcpu),
        StageCheck::InterruptsDisabled => ScenarioAction::ReadRflags(stage.vcpu),
        StageCheck::InterruptsEnabled => ScenarioAction::ReadRflags(stage.vcpu),
        StageCheck::MpState(_) => ScenarioAction::ReadMpState(stage.vcpu),
        StageCheck::SipiStartup => ScenarioAction::ReadStartupState(stage.vcpu),
        StageCheck::LongMode => ScenarioAction::ReadLongModeRegisters(stage.vcpu),
        StageCheck::Idt { .. } => ScenarioAction::ReadIdt(stage.vcpu),
        StageCheck::GuestByte { address, .. } => ScenarioAction::ReadGuestByte(address),
        StageCheck::GuestQword { address, .. } => ScenarioAction::ReadGuestQword(address),
        StageCheck::HostCount { operation, .. } => ScenarioAction::Perform(operation),
        StageCheck::Host(operation) => ScenarioAction::Perform(operation),
    }
}

pub open spec fn interrupts_disabled(rflags: u64) -> bool {
    rflags & X86_RFLAGS_RESERVED_BIT == X86_RFLAGS_RESERVED_BIT && rflags & X86_RFLAGS_INTERRUPT_ENABLE == 0
}

pub open spec fn interrupts_enabled(rflags: u64) -> bool {
    rflags & X86_RFLAGS_RESERVED_BIT == X86_RFLAGS_RESERVED_BIT
        && rflags & X86_RFLAGS_INTERRUPT_ENABLE == X86_RFLAGS_INTERRUPT_ENABLE
}

/// Whether the event is what the stage's check requires.
pub open spec fn spec_accepts(check: StageCheck, event: ScenarioEvent) -> bool {
    match check {
        StageCheck::DebugOutput(byte) => match event {
            ScenarioEvent::Exited { exit, io: Some(io), output } => exit == VcpuExit::Io && output
                && is_debug_output(io, byte),
            _ => false,
        },
        StageCheck::Halt => match event {
            ScenarioEvent::Exited { exit, .. } => exit == VcpuExit::Hlt,
            _ => false,
        },
        StageCheck::InterruptsDisabled => match event {
            ScenarioEvent::Rflags(rflags) => interrupts_disabled(rflags),
            _ => false,
        },
        StageCheck::InterruptsEnabled => match event {
            ScenarioEvent::Rflags(rflags) => interrupts_enabled(rflags),
            _ => false,
        },
        StageCheck::MpState(expected) => event == ScenarioEvent::MpState(expected),
        StageCheck::SipiStartup => match event {
            ScenarioEvent::Startup(state) => startup_state_valid(state),
            _ => false,
        },
        StageCheck::LongMode => match event {
            ScenarioEvent::LongModeRegisters(regs) => ap_long_mode_valid(regs),
            _ => false,
        },
        StageCheck::Idt { base, limit } => event == (ScenarioEvent::Idt { base, limit }),
        StageCheck::GuestByte { expected, .. } => event == ScenarioEvent::GuestByte(expected),
        StageCheck::GuestQword { expected, .. } => event == ScenarioEvent::GuestQword(expected),
        StageCheck::HostCount { expected, .. } => event == ScenarioEvent::Count(expected),
        StageCheck::Host(_) => event == ScenarioEvent::Performed,
    }
}

/// The abstract state of a run: the script, how many stages were observed, and the accepted
/// events, one per observed stage.
pub struct ScenarioRunView {
    pub script: Seq<Stage>,
    pub position: nat,
    pub observations: Seq<ScenarioEvent>,
}

pub open spec fn spec_next_action(run: ScenarioRunView) -> ScenarioAction {
    if run.position < run.script.len() {
        spec_action_for(run.script[run.position as int])
    } else {
        ScenarioAction::Finish
    }
}

pub open spec fn spec_scenario_start(script: Seq<Stage>) -> ScenarioRunView {
    ScenarioRunView { script, position: 0, observations: Seq::empty() }
}

/// One step: past the end the run is finished; an accepted event moves to the next stage and
/// asks for its action; a rejected event fails with the stage's error and changes nothing.
pub open spec fn spec_scenario_step(run: ScenarioRunView, event: ScenarioEvent) -> (ScenarioRunView, ScenarioAction) {
    if run.position >= run.script.len() {
        (run, ScenarioAction::Finish)
    } else {
        let stage = run.script[run.position as int];
        if spec_accepts(stage.check, event) {
            let next = ScenarioRunView {
                script: run.script,
                position: run.position + 1,
                observations: run.observations.push(event),
            };
            (next, spec_next_action(next))
        } else {
            (run, ScenarioAction::Fail(spec_stage_error(stage)))
        }
    }
}

/// The debug bytes the given stages require of one vCPU, in order.
pub open spec fn spec_expected_output(stages: Seq<Stage>, vcpu: u16) -> Seq<u8>
    decreases stages.len(),
{
    if stages.len() == 0 {
        Seq::empty()
    } else {
        let last = stages.last();
        let earlier = spec_expected_output(stages.drop_last(), vcpu);
        match last.check {
            StageCheck::DebugOutput(byte) => if last.vcpu == vcpu {
                earlier.push(byte)
            } else {
                earlier
            },
            _ => earlier,
        }
    }
}


/// The run's observations are the events its first stages accepted, one per stage, in order.
pub open spec fn run_consistent(run: ScenarioRunView) -> bool {
    &&& run.position <= run.script.len()
    &&& run.observations.len() == run.position
    &&& forall|k: int| 0 <= k < run.position ==> #[trigger] spec_accepts(run.script[k].check, run.observations[k])
}

/// A run starts consistent with nothing observed.
pub proof fn lemma_start_is_consistent(script: Seq<Stage>)
    ensures
        run_consistent(spec_scenario_start(script)),
        spec_scenario_start(script).position == 0,
{
}

/// Whatever the host hands back, a step keeps the run consistent and its script unchanged, and
/// it either stays at its stage or moves to the next one: no stage is skipped or observed twice,
/// and no event that its stage did not accept is recorded.
pub proof fn lemma_step_keeps_run_consistent(run: ScenarioRunView, event: ScenarioEvent)
    requires
        run_consistent(run),
    ensures
        run_consistent(spec_scenario_step(run, event).0),
        spec_scenario_step(run, event).0.script == run.script,
        spec_scenario_step(run, event).0.position == run.position
            || spec_scenario_step(run, event).0.position == run.position + 1,
        spec_scenario_step(run, event).0.position == run.position + 1 ==> spec_accepts(
            run.script[run.position as int].check,
            event,
        ),
{
    let next = spec_scenario_step(run, event).0;
    if run.position < run.script.len() && spec_accepts(run.script[run.position as int].check, event) {
        assert forall|k: int| 0 <= k < next.position implies #[trigger] spec_accepts(
            next.script[k].check,
            next.observations[k],
        ) by {
            if k < run.position {
                assert(next.observations[k] == run.observations[k]);
            }
        }
    }
}

/// A finished consistent run accepted an event at every stage of its script.
pub proof fn lemma_finished_run_observed_every_stage(run: ScenarioRunView)
    requires
        run_consistent(run),
        run.position == run.script.len(),
    ensures
        run.observations.len() == run.script.len(),
        forall|k: int| 0 <= k < run.script.len() ==> #[trigger] spec_accepts(run.script[k].check, run.observations[k]),
{
}

pub struct ScenarioRun {
    script: Vec<Stage>,
    position: usize,
    observations: Vec<ScenarioEvent>,
}

impl View for ScenarioRun {
    type V = ScenarioRunView;

    closed spec fn view(&self) -> ScenarioRunView {
        ScenarioRunView {
            script: self.script@,
            position: self.position as nat,
            observations: self.observations@,
        }
    }
}

fn action_for(stage: &Stage) -> (r: ScenarioAction)
    ensures r == spec_action_for(*stage),
{
    match stage.check {
        StageCheck::DebugOutput(_) => ScenarioAction::Run(stage.vcpu),
        StageCheck::Halt => ScenarioAction::Run(stage.vcpu),
        StageCheck::InterruptsDisabled => ScenarioAction::ReadRflags(stage.vcpu),
        StageCheck::InterruptsEnabled => ScenarioAction::ReadRflags(stage.vcpu),
        StageCheck::MpState(_) => ScenarioAction::ReadMpState(stage.vcpu),
        StageCheck::SipiStartup => ScenarioAction::ReadStartupState(stage.vcpu),
        StageCheck::LongMode => ScenarioAction::ReadLongModeRegisters(stage.vcpu),
        StageCheck::Idt { .. } => ScenarioAction::ReadIdt(stage.vcpu),
        StageCheck::GuestByte { address, .. } => ScenarioAction::ReadGuestByte(address),
        StageCheck::GuestQword { address, .. } => ScenarioAction::ReadGuestQword(address),
        StageCheck::HostCount { operation, .. } => ScenarioAction::Perform(operation),
        StageCheck::Host(operation) => ScenarioAction::Perform(operation),
    }
}

fn debug_output_matches(exit: VcpuExit, io: &PortIoExit, output: bool, byte: u8) -> (r: bool)
    ensures r == (exit == VcpuExit::Io && output && is_debug_output(*io, byte)),
{
    let data = io.output_data();
    proof {
        if data@.len() == 1 && data@[0] == byte {
            assert(data@ =~= seq![byte]);
        }
    }
    exit == VcpuExit::Io && output && io.direction() == PortIoDirection::Out && io.port() == DEBUG_PORT
        && io.size() == 1 && io.count() == 1 && data.len() == 1 && data[0] == byte
}

/// Whether the event is what the check requires.
pub fn accepts(check: StageCheck, event: &ScenarioEvent) -> (r: bool)
    ensures r == spec_accepts(check, *event),
{
    match check {
        StageCheck::DebugOutput(byte) => match event {
            ScenarioEvent::Exited { exit, io: Some(io), output } => debug_output_matches(*exit, io, *output, byte),
            _ => false,
        },
        StageCheck::Halt => match event {
            ScenarioEvent::Exited { exit, .. } => *exit == VcpuExit::Hlt,
            _ => false,
        },
        StageCheck::InterruptsDisabled => match event {
            ScenarioEvent::Rflags(rflags) => *rflags & X86_RFLAGS_RESERVED_BIT == X86_RFLAGS_RESERVED_BIT
                && *rflags & X86_RFLAGS_INTERRUPT_ENABLE == 0,
            _ => false,
        },
        StageCheck::InterruptsEnabled => match event {
            ScenarioEvent::Rflags(rflags) => *rflags & X86_RFLAGS_RESERVED_BIT == X86_RFLAGS_RESERVED_BIT
                && *rflags & X86_RFLAGS_INTERRUPT_ENABLE == X86_RFLAGS_INTERRUPT_ENABLE,
            _ => false,
        },
        StageCheck::MpState(expected) => match event {
            ScenarioEvent::MpState(observed) => *observed == expected,
            _ => false,
        },
        StageCheck::SipiStartup => match event {
            ScenarioEvent::Startup(state) => crate::portio::vcpu_checks::require_init_sipi_startup_state(
                0,
                "",
                *state,
            ).is_ok(),
            _ => false,
        },
        StageCheck::LongMode => match event {
            ScenarioEvent::LongModeRegisters(regs) => crate::portio::vcpu_checks::require_ap_long_mode_state(
                0,
                "",
                *regs,
            ).is_ok(),
            _ => false,
        },
        StageCheck::Idt { base, limit } => match event {
            ScenarioEvent::Idt { base: observed_base, limit: observed_limit } => *observed_base == base
                && *observed_limit == limit,
            _ => false,
        },
        StageCheck::GuestByte { expected, .. } => match event {
            ScenarioEvent::GuestByte(value) => *value == expected,
            _ => false,
        },
        StageCheck::GuestQword { expected, .. } => match event {
            ScenarioEvent::GuestQword(value) => *value == expected,
            _ => false,
        },
        StageCheck::HostCount { expected, .. } => match event {
            ScenarioEvent::Count(count) => *count == expected,
            _ => false,
        },
        StageCheck::Host(_) => match event {
            ScenarioEvent::Performed => true,
            _ => false,
        },
    }
}

fn next_action(run: &ScenarioRun) -> (r: ScenarioAction)
    ensures r == spec_next_action(run@),
{
    if run.position < run.script.len() {
        action_for(&run.script[run.position])
    } else {
        ScenarioAction::Finish
    }
}

/// Starts a run of the script and returns the action of its first stage.
pub fn scenario_start(script: Vec<Stage>) -> (r: (ScenarioRun, ScenarioAction))
    ensures
        r.0@ == spec_scenario_start(script@),
        r.1 == spec_next_action(r.0@),
{
    let run = ScenarioRun { script, position: 0, observations: Vec::new() };
    let action = next_action(&run);
    (run, action)
}

/// Hands the machine what the host observed for the current stage.
pub fn scenario_step(run: ScenarioRun, event: ScenarioEvent) -> (r: (ScenarioRun, ScenarioAction))
    ensures
        r.0@ == spec_scenario_step(run@, event).0,
        r.1 == spec_scenario_step(run@, event).1,
{
    if run.position >= run.script.len() {
        return (run, ScenarioAction::Finish);
    }
    let stage = run.script[run.position];
    if !accepts(stage.check, &event) {
        let error = stage_error(&stage);
        return (run, ScenarioAction::Fail(error));
    }
    let ScenarioRun { script, position, mut observations } = run;
    observations.push(event);
    let next = ScenarioRun { script, position: position + 1, observations };
    let action = next_action(&next);
    (next, action)
}


/// The port-I/O exit a run event carries.
pub open spec fn io_of(event: ScenarioEvent) -> PortIoExit {
    match event {
        ScenarioEvent::Exited { io: Some(io), .. } => io,
        _ => arbitrary(),
    }
}

/// The RFLAGS value a run event carries.
pub open spec fn rflags_of(event: ScenarioEvent) -> u64 {
    match event {
        ScenarioEvent::Rflags(rflags) => rflags,
        _ => 0,
    }
}

/// Whether the event is a vCPU exit that carries a port-I/O access.
pub open spec fn carries_io(event: ScenarioEvent) -> bool {
    event matches ScenarioEvent::Exited { io: Some(_), .. }
}

/// Moves the port-I/O exit out of event `k`, leaving `Performed` in its place.
pub(crate) fn take_io(events: &mut Vec<ScenarioEvent>, k: usize) -> (r: PortIoExit)
    requires
        k < old(events)@.len(),
        carries_io(old(events)@[k as int]),
    ensures
        r == io_of(old(events)@[k as int]),
        final(events)@ == old(events)@.update(k as int, ScenarioEvent::Performed),
{
    let event = events.remove(k);
    events.insert(k, ScenarioEvent::Performed);
    proof {
        assert(events@ =~= old(events)@.update(k as int, ScenarioEvent::Performed));
    }
    match event {
        ScenarioEvent::Exited { io: Some(io), .. } => io,
        _ => vstd::pervasive::unreached(),
    }
}

/// The RFLAGS value of event `k`.
pub(crate) fn rflags_at(events: &Vec<ScenarioEvent>, k: usize) -> (r: u64)
    requires
        k < events@.len(),
    ensures
        r == rflags_of(events@[k as int]),
{
    match &events[k] {
        ScenarioEvent::Rflags(rflags) => *rflags,
        _ => 0,
    }
}


/// The multiprocessing state a run event carries.
pub open spec fn mp_state_of(event: ScenarioEvent) -> u32 {
    match event {
        ScenarioEvent::MpState(state) => state,
        _ => 0,
    }
}

/// The start-up state a run event carries.
pub open spec fn startup_of(event: ScenarioEvent) -> ApStartupState {
    match event {
        ScenarioEvent::Startup(state) => state,
        _ => ApStartupState { mp_state: 0, rip: 0, cs_selector: 0, cs_base: 0, cr0: 0 },
    }
}

/// The long-mode registers a run event carries.
pub open spec fn long_mode_of(event: ScenarioEvent) -> ApLongModeRegisters {
    match event {
        ScenarioEvent::LongModeRegisters(regs) => regs,
        _ => ApLongModeRegisters {
            rsp: 0,
            cs_selector: 0,
            cs_long: 0,
            cs_db: 0,
            cs_present: 0,
            ss_selector: 0,
            gdt_base: 0,
            gdt_limit: 0,
            cr0: 0,
            cr3: 0,
            cr4: 0,
            efer: 0,
        },
    }
}

/// The IDTR base and limit a run event carries.
pub open spec fn idt_of(event: ScenarioEvent) -> (u64, u16) {
    match event {
        ScenarioEvent::Idt { base, limit } => (base, limit),
        _ => (0, 0),
    }
}

/// The guest byte a run event carries.
pub open spec fn byte_of(event: ScenarioEvent) -> u8 {
    match event {
        ScenarioEvent::GuestByte(value) => value,
        _ => 0,
    }
}

/// The guest quadword a run event carries.
pub open spec fn qword_of(event: ScenarioEvent) -> u64 {
    match event {
        ScenarioEvent::GuestQword(value) => value,
        _ => 0,
    }
}

pub(crate) fn mp_state_at(events: &Vec<ScenarioEvent>, k: usize) -> (r: u32)
    requires k < events@.len(),
    ensures r == mp_state_of(events@[k as int]),
{
    match &events[k] {
        ScenarioEvent::MpState(state) => *state,
        _ => 0,
    }
}

pub(crate) fn startup_at(events: &Vec<ScenarioEvent>, k: usize) -> (r: ApStartupState)
    requires k < events@.len(),
    ensures r == startup_of(events@[k as int]),
{
    match &events[k] {
        ScenarioEvent::Startup(state) => *state,
        _ => ApStartupState { mp_state: 0, rip: 0, cs_selector: 0, cs_base: 0, cr0: 0 },
    }
}

pub(crate) fn long_mode_at(events: &Vec<ScenarioEvent>, k: usize) -> (r: ApLongModeRegisters)
    requires k < events@.len(),
    ensures r == long_mode_of(events@[k as int]),
{
    match &events[k] {
        ScenarioEvent::LongModeRegisters(regs) => *regs,
        _ => ApLongModeRegisters {
            rsp: 0,
            cs_selector: 0,
            cs_long: 0,
            cs_db: 0,
            cs_present: 0,
            ss_selector: 0,
            gdt_base: 0,
            gdt_limit: 0,
            cr0: 0,
            cr3: 0,
            cr4: 0,
            efer: 0,
        },
    }
}

pub(crate) fn idt_at(events: &Vec<ScenarioEvent>, k: usize) -> (r: (u64, u16))
    requires k < events@.len(),
    ensures r == idt_of(events@[k as int]),
{
    match &events[k] {
        ScenarioEvent::Idt { base, limit } => (*base, *limit),
        _ => (0, 0),
    }
}

pub(crate) fn byte_at(events: &Vec<ScenarioEvent>, k: usize) -> (r: u8)
    requires k < events@.len(),
    ensures r == byte_of(events@[k as int]),
{
    match &events[k] {
        ScenarioEvent::GuestByte(value) => *value,
        _ => 0,
    }
}

pub(crate) fn qword_at(events: &Vec<ScenarioEvent>, k: usize) -> (r: u64)
    requires k < events@.len(),
    ensures r == qword_of(events@[k as int]),
{
    match &events[k] {
        ScenarioEvent::GuestQword(value) => *value,
        _ => 0,
    }
}

impl ScenarioRun {
    pub fn script(&self) -> (r: &[Stage])
        ensures r@ == self@.script,
    {
        self.script.as_slice()
    }

    pub fn position(&self) -> (r: usize)
        ensures r == self@.position,
    {
        self.position
    }

    /// The accepted events, one per observed stage.
    pub fn observations(&self) -> (r: &[ScenarioEvent])
        ensures r@ == self@.observations,
    {
        self.observations.as_slice()
    }

    /// Ends the run and hands over its accepted events.
    pub fn into_observations(self) -> (r: Vec<ScenarioEvent>)
        ensures
            r@ == self@.observations,
    {
        self.observations
    }

    pub fn is_finished(&self) -> (r: bool)
        ensures r == (self@.position >= self@.script.len()),
    {
        self.position >= self.script.len()
    }

    /// The debug bytes the observed stages required of the vCPU, in order: what it printed.
    pub fn debug_output(&self, vcpu: u16) -> (r: Vec<u8>)
        requires self@.position <= self@.script.len(),
        ensures r@ == spec_expected_output(self@.script.take(self@.position as int), vcpu),
    {
        let mut out: Vec<u8> = Vec::new();
        let mut i: usize = 0;
        while i < self.position
            invariant
                i <= self.position <= self.script@.len(),
                out@ == spec_expected_output(self.script@.take(i as int), vcpu),
            decreases self.position - i,
        {
            let stage = self.script[i];
            proof {
                assert(self.script@.take(i as int + 1).drop_last() =~= self.script@.take(i as int));
            }
            match stage.check {
                StageCheck::DebugOutput(byte) => {
                    if stage.vcpu == vcpu {
                        out.push(byte);
                    }
                },
                _ => {},
            }
            i = i + 1;
        }
        out
    }
}

} // verus!
