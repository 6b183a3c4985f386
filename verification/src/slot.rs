//! One isolate slot: the states it passes through, what is to be done in
//! each, and what becomes of it when a step succeeds or fails.
//!
//! The isolate itself is driven elsewhere. This module decides: it names the
//! next action, takes the outcome of that action as an event, and gives the
//! next state.

use vstd::prelude::*;
use crate::config::{standard_config, BootstrapConfig, BootstrapConfigView, PermissionSet};
use crate::decimal::{decimal, decimal_reads_back, decimal_value};
use crate::decimal::render_decimal;
use crate::loader::{LoaderView, MainModuleLoader, ModuleIdentity};

verus! {

/// The name under which the statement that injects the identity is run.
pub const INIT_SCRIPT_NAME: &'static str = "test:init";

/// The statement that binds the slot's identity, up to the number.
pub open spec fn statement_opening() -> Seq<char> {
    "globalThis.runtimeNum = "@
}

/// The statement that binds the identity `slot` under its global name.
pub open spec fn identity_statement(slot: nat) -> Seq<char> {
    statement_opening() + decimal(slot) + ";"@
}

/// The number that an identity statement binds: what stands between the
/// opening and the closing semicolon, read as a decimal number.
pub open spec fn bound_identity(statement: Seq<char>) -> nat {
    decimal_value(statement.subrange(statement_opening().len() as int, statement.len() - 1))
}

/// What is printed when the slot `slot` has terminated.
pub open spec fn completion_message(slot: nat) -> Seq<char> {
    "Runtime "@ + decimal(slot) + " terminated!"@
}

/// Writes the statement that binds the identity `slot`.
pub fn render_identity_statement(slot: usize) -> (statement: String)
    ensures
        statement@ == identity_statement(slot as nat),
{
    let opening = String::from_str("globalThis.runtimeNum = ");
    let number = render_decimal(slot);
    opening.concat(number.as_str()).concat(";")
}

/// Writes what is printed when the slot `slot` has terminated.
pub fn render_completion_message(slot: usize) -> (message: String)
    ensures
        message@ == completion_message(slot as nat),
{
    let opening = String::from_str("Runtime ");
    let number = render_decimal(slot);
    opening.concat(number.as_str()).concat(" terminated!")
}

/// The step at which a slot failed.
#[derive(Clone, Copy, Debug, PartialEq, Eq, Structural)]
pub enum SlotErrorKind {
    /// The isolate could not be created, or the identity not injected.
    Bootstrap,
    /// The main module could not be loaded, the program threw, or the event
    /// loop reported a fault while draining.
    Execution,
}

/// The error that a failed slot carries.
#[derive(Debug)]
pub struct SlotError {
    /// The identity of the slot that failed.
    pub slot: usize,
    pub kind: SlotErrorKind,
    /// The error as the isolate described it.
    pub message: String,
}

/// What a `SlotError` holds, as mathematical values.
pub struct SlotErrorView {
    pub slot: nat,
    pub kind: SlotErrorKind,
    pub message: Seq<char>,
}

impl View for SlotError {
    type V = SlotErrorView;

    open spec fn view(&self) -> SlotErrorView {
        SlotErrorView { slot: self.slot as nat, kind: self.kind, message: self.message@ }
    }
}

impl SlotError {
    /// A second copy of the error.
    pub fn duplicate(&self) -> (copy: SlotError)
        ensures
            copy@ == self@,
    {
        SlotError { slot: self.slot, kind: self.kind, message: self.message.clone() }
    }
}

/// Where a slot stands.
#[derive(Debug)]
pub enum SlotState {
    /// Nothing has been done yet.
    Created,
    /// The isolate exists.
    Bootstrapped,
    /// The isolate knows its identity.
    IdentityInjected,
    /// The isolate has been pointed at the main module and is running it.
    MainModuleExecuting,
    /// The top level has completed; scheduled work is being run.
    EventLoopDraining,
    /// No work is left: the slot has succeeded.
    Terminated,
    /// A step failed: the slot has failed with the error of that step.
    Failed(SlotError),
}

/// What a `SlotState` holds, as mathematical values.
pub enum SlotStateView {
    Created,
    Bootstrapped,
    IdentityInjected,
    MainModuleExecuting,
    EventLoopDraining,
    Terminated,
    Failed(SlotErrorView),
}

impl View for SlotState {
    type V = SlotStateView;

    open spec fn view(&self) -> SlotStateView {
        match self {
            SlotState::Created => SlotStateView::Created,
            SlotState::Bootstrapped => SlotStateView::Bootstrapped,
            SlotState::IdentityInjected => SlotStateView::IdentityInjected,
            SlotState::MainModuleExecuting => SlotStateView::MainModuleExecuting,
            SlotState::EventLoopDraining => SlotStateView::EventLoopDraining,
            SlotState::Terminated => SlotStateView::Terminated,
            SlotState::Failed(error) => SlotStateView::Failed(error@),
        }
    }
}

/// The outcome of the action that a slot asked for last.
#[derive(Debug)]
pub enum SlotEvent {
    /// The action was carried out.
    Completed,
    /// The action failed, with the error as the isolate described it.
    Faulted(String),
}

/// What a `SlotEvent` holds, as mathematical values.
pub enum SlotEventView {
    Completed,
    Faulted(Seq<char>),
}

impl View for SlotEvent {
    type V = SlotEventView;

    open spec fn view(&self) -> SlotEventView {
        match self {
            SlotEvent::Completed => SlotEventView::Completed,
            SlotEvent::Faulted(message) => SlotEventView::Faulted(message@),
        }
    }
}

/// What is to be done for a slot.
#[derive(Debug)]
pub enum SlotAction {
    /// Create the isolate for the main module `main`.
    Bootstrap { config: BootstrapConfig, permissions: PermissionSet, main: ModuleIdentity },
    /// Run `statement` in the isolate, under the name `script_name`.
    InjectIdentity { script_name: String, statement: String },
    /// Have the isolate resolve, load and compile the module `identity`,
    /// and begin to run it.
    ExecuteMainModule { identity: ModuleIdentity },
    /// Wait until the top level of the main module has run to its end.
    AwaitTopLevel,
    /// Run the isolate's event loop until no work is left.
    DrainEventLoop,
    /// Report that the slot has terminated, and drop the isolate.
    ReportTerminated { slot: usize, message: String },
    /// Report that the slot has failed, and drop the isolate.
    ReportFailure { error: SlotError },
}

/// What a `SlotAction` holds, as mathematical values.
pub enum SlotActionView {
    Bootstrap { config: BootstrapConfigView, permissions: PermissionSet, main: Seq<char> },
    InjectIdentity { script_name: Seq<char>, statement: Seq<char> },
    ExecuteMainModule { identity: Seq<char> },
    AwaitTopLevel,
    DrainEventLoop,
    ReportTerminated { slot: nat, message: Seq<char> },
    ReportFailure { error: SlotErrorView },
}

impl View for SlotAction {
    type V = SlotActionView;

    open spec fn view(&self) -> SlotActionView {
        match self {
            SlotAction::Bootstrap { config, permissions, main } => SlotActionView::Bootstrap {
                config: config@,
                permissions: *permissions,
                main: main@,
            },
            SlotAction::InjectIdentity { script_name, statement } => {
                SlotActionView::InjectIdentity { script_name: script_name@, statement: statement@ }
            },
            SlotAction::ExecuteMainModule { identity } => SlotActionView::ExecuteMainModule {
                identity: identity@,
            },
            SlotAction::AwaitTopLevel => SlotActionView::AwaitTopLevel,
            SlotAction::DrainEventLoop => SlotActionView::DrainEventLoop,
            SlotAction::ReportTerminated { slot, message } => SlotActionView::ReportTerminated {
                slot: *slot as nat,
                message: message@,
            },
            SlotAction::ReportFailure { error } => SlotActionView::ReportFailure { error: error@ },
        }
    }
}

/// A slot: its identity, which never changes, and where it stands.
#[derive(Debug)]
pub struct Slot {
    pub identity: usize,
    pub state: SlotState,
}

/// What a `Slot` holds, as mathematical values.
pub struct SlotView {
    pub identity: nat,
    pub state: SlotStateView,
}

impl View for Slot {
    type V = SlotView;

    open spec fn view(&self) -> SlotView {
        SlotView { identity: self.identity as nat, state: self.state@ }
    }
}

/// What a finished slot reports.
#[derive(Debug)]
pub enum SlotReport {
    /// The slot with this identity has terminated.
    Terminated(usize),
    /// A slot has failed, with this error.
    Failed(SlotError),
}

/// What a `SlotReport` holds, as mathematical values.
pub enum SlotReportView {
    Terminated(nat),
    Failed(SlotErrorView),
}

impl View for SlotReport {
    type V = SlotReportView;

    open spec fn view(&self) -> SlotReportView {
        match self {
            SlotReport::Terminated(slot) => SlotReportView::Terminated(*slot as nat),
            SlotReport::Failed(error) => SlotReportView::Failed(error@),
        }
    }
}

impl SlotReport {
    /// A second copy of the report.
    pub fn duplicate(&self) -> (copy: SlotReport)
        ensures
            copy@ == self@,
    {
        match self {
            SlotReport::Terminated(slot) => SlotReport::Terminated(*slot),
            SlotReport::Failed(error) => SlotReport::Failed(error.duplicate()),
        }
    }
}

/// The view of what `Slot::report` returns.
pub open spec fn report_view(r: Option<SlotReport>) -> Option<SlotReportView> {
    match r {
        Some(report) => Some(report@),
        None => None,
    }
}

/// What `slot` reports as it stands.
pub open spec fn report_spec(slot: SlotView) -> Option<SlotReportView> {
    match slot.state {
        SlotStateView::Terminated => Some(SlotReportView::Terminated(slot.identity)),
        SlotStateView::Failed(error) => Some(SlotReportView::Failed(error)),
        _ => None,
    }
}

/// Whether a state is final: the slot has terminated or failed.
pub open spec fn is_terminal(state: SlotStateView) -> bool {
    state is Terminated || state is Failed
}

/// The state that follows `state` when its action was carried out.
pub open spec fn successor(state: SlotStateView) -> SlotStateView {
    match state {
        SlotStateView::Created => SlotStateView::Bootstrapped,
        SlotStateView::Bootstrapped => SlotStateView::IdentityInjected,
        SlotStateView::IdentityInjected => SlotStateView::MainModuleExecuting,
        SlotStateView::MainModuleExecuting => SlotStateView::EventLoopDraining,
        SlotStateView::EventLoopDraining => SlotStateView::Terminated,
        SlotStateView::Terminated => SlotStateView::Terminated,
        SlotStateView::Failed(error) => SlotStateView::Failed(error),
    }
}

/// The kind of the error when the action of `state` fails.
pub open spec fn failure_kind(state: SlotStateView) -> SlotErrorKind {
    match state {
        SlotStateView::Created => SlotErrorKind::Bootstrap,
        SlotStateView::Bootstrapped => SlotErrorKind::Bootstrap,
        _ => SlotErrorKind::Execution,
    }
}

/// The slot after `event`. A final state stays as it is, whatever comes. In
/// any other state a completed action leads to the successor, and a failed
/// one to `Failed`, with the slot's identity, the kind of the step that
/// failed and the message of the event.
pub open spec fn step_spec(slot: SlotView, event: SlotEventView) -> SlotView {
    if is_terminal(slot.state) {
        slot
    } else {
        match event {
            SlotEventView::Completed => SlotView {
                identity: slot.identity,
                state: successor(slot.state),
            },
            SlotEventView::Faulted(message) => SlotView {
                identity: slot.identity,
                state: SlotStateView::Failed(
                    SlotErrorView {
                        slot: slot.identity,
                        kind: failure_kind(slot.state),
                        message,
                    },
                ),
            },
        }
    }
}

/// What is to be done for `slot` as it stands, with `loader` as the module
/// provider.
pub open spec fn action_spec(slot: SlotView, loader: LoaderView) -> SlotActionView {
    match slot.state {
        SlotStateView::Created => SlotActionView::Bootstrap {
            config: standard_config(),
            permissions: PermissionSet::AllowAll,
            main: loader.main,
        },
        SlotStateView::Bootstrapped => SlotActionView::InjectIdentity {
            script_name: INIT_SCRIPT_NAME@,
            statement: identity_statement(slot.identity),
        },
        SlotStateView::IdentityInjected => SlotActionView::ExecuteMainModule {
            identity: loader.main,
        },
        SlotStateView::MainModuleExecuting => SlotActionView::AwaitTopLevel,
        SlotStateView::EventLoopDraining => SlotActionView::DrainEventLoop,
        SlotStateView::Terminated => SlotActionView::ReportTerminated {
            slot: slot.identity,
            message: completion_message(slot.identity),
        },
        SlotStateView::Failed(error) => SlotActionView::ReportFailure { error },
    }
}

/// The slot after each event of `events` in turn.
pub open spec fn run_spec(slot: SlotView, events: Seq<SlotEventView>) -> SlotView
    decreases events.len(),
{
    if events.len() == 0 {
        slot
    } else {
        step_spec(run_spec(slot, events.drop_last()), events.last())
    }
}

impl Slot {
    /// A slot with the identity `identity`, for which nothing has been done.
    pub fn new(identity: usize) -> (slot: Slot)
        ensures
            slot@ == (SlotView { identity: identity as nat, state: SlotStateView::Created }),
    {
        Slot { identity, state: SlotState::Created }
    }

    /// Whether the slot has terminated or failed.
    pub fn is_finished(&self) -> (b: bool)
        ensures
            b == is_terminal(self@.state),
    {
        match &self.state {
            SlotState::Terminated => true,
            SlotState::Failed(_) => true,
            _ => false,
        }
    }

    /// What is to be done for the slot as it stands.
    pub fn next_action(&self, loader: &MainModuleLoader) -> (action: SlotAction)
        ensures
            action@ == action_spec(self@, loader@),
    {
        match &self.state {
            SlotState::Created => SlotAction::Bootstrap {
                config: BootstrapConfig::standard(),
                permissions: PermissionSet::granted(),
                main: loader.main_identity().duplicate(),
            },
            SlotState::Bootstrapped => SlotAction::InjectIdentity {
                script_name: String::from_str(INIT_SCRIPT_NAME),
                statement: render_identity_statement(self.identity),
            },
            SlotState::IdentityInjected => SlotAction::ExecuteMainModule {
                identity: loader.main_identity().duplicate(),
            },
            SlotState::MainModuleExecuting => SlotAction::AwaitTopLevel,
            SlotState::EventLoopDraining => SlotAction::DrainEventLoop,
            SlotState::Terminated => SlotAction::ReportTerminated {
                slot: self.identity,
                message: render_completion_message(self.identity),
            },
            SlotState::Failed(error) => SlotAction::ReportFailure { error: error.duplicate() },
        }
    }

    /// The slot after `event`, the outcome of the action it asked for last.
    pub fn step(self, event: SlotEvent) -> (next: Slot)
        ensures
            next@ == step_spec(self@, event@),
    {
        let identity: usize = self.identity;
        match self.state {
            SlotState::Terminated => Slot { identity, state: SlotState::Terminated },
            SlotState::Failed(error) => Slot { identity, state: SlotState::Failed(error) },
            SlotState::Created => Slot::after(
                identity,
                SlotState::Bootstrapped,
                SlotErrorKind::Bootstrap,
                event,
            ),
            SlotState::Bootstrapped => Slot::after(
                identity,
                SlotState::IdentityInjected,
                SlotErrorKind::Bootstrap,
                event,
            ),
            SlotState::IdentityInjected => Slot::after(
                identity,
                SlotState::MainModuleExecuting,
                SlotErrorKind::Execution,
                event,
            ),
            SlotState::MainModuleExecuting => Slot::after(
                identity,
                SlotState::EventLoopDraining,
                SlotErrorKind::Execution,
                event,
            ),
            SlotState::EventLoopDraining => Slot::after(
                identity,
                SlotState::Terminated,
                SlotErrorKind::Execution,
                event,
            ),
        }
    }

    /// The slot in `reached` if `event` is a completion, and else failed with
    /// an error of the kind `kind`.
    fn after(identity: usize, reached: SlotState, kind: SlotErrorKind, event: SlotEvent) -> (next:
        Slot)
        ensures
            next@.identity == identity as nat,
            event@ is Completed ==> next@.state == reached@,
            event@ matches SlotEventView::Faulted(message) ==> next@.state
                == SlotStateView::Failed(
                SlotErrorView { slot: identity as nat, kind, message },
            ),
    {
        match event {
            SlotEvent::Completed => Slot { identity, state: reached },
            SlotEvent::Faulted(message) => Slot {
                identity,
                state: SlotState::Failed(SlotError { slot: identity, kind, message }),
            },
        }
    }

    /// What the slot reports when it is finished: nothing while it is under
    /// way, its identity when it has terminated, its error when it has failed.
    pub fn report(&self) -> (r: Option<SlotReport>)
        ensures
            report_view(r) == report_spec(self@),
    {
        match &self.state {
            SlotState::Terminated => Some(SlotReport::Terminated(self.identity)),
            SlotState::Failed(error) => Some(SlotReport::Failed(error.duplicate())),
            _ => None,
        }
    }
}

/// The state that a slot has reached after `done` actions were carried out.
pub open spec fn stage_after(done: nat) -> SlotStateView {
    if done == 0 {
        SlotStateView::Created
    } else if done == 1 {
        SlotStateView::Bootstrapped
    } else if done == 2 {
        SlotStateView::IdentityInjected
    } else if done == 3 {
        SlotStateView::MainModuleExecuting
    } else if done == 4 {
        SlotStateView::EventLoopDraining
    } else {
        SlotStateView::Terminated
    }
}

/// The statement injected into a slot binds the slot's own number: read back
/// from the statement, the number is the slot's identity.
pub proof fn injected_identity_is_the_slot(slot: nat)
    ensures
        bound_identity(identity_statement(slot)) == slot,
{
    let opening = statement_opening();
    let statement = identity_statement(slot);
    reveal_strlit(";");
    decimal_reads_back(slot);
    assert(statement.len() == opening.len() + decimal(slot).len() + 1);
    assert(statement.subrange(opening.len() as int, statement.len() - 1) =~= decimal(slot));
}

/// No slot is told the identity of another: slots with different identities
/// are injected different statements.
pub proof fn slots_get_distinct_statements(first: nat, second: nat)
    requires
        first != second,
    ensures
        identity_statement(first) != identity_statement(second),
{
    injected_identity_is_the_slot(first);
    injected_identity_is_the_slot(second);
}

/// Every slot is created alike: with the same configuration, permissions and
/// main module, whatever its identity. The identity reaches the isolate by
/// the injected statement alone, which binds the slot's own number.
pub proof fn every_slot_is_created_alike(first: nat, second: nat, loader: LoaderView)
    ensures
        action_spec(SlotView { identity: first, state: SlotStateView::Created }, loader)
            == action_spec(SlotView { identity: second, state: SlotStateView::Created }, loader),
        action_spec(
            SlotView { identity: first, state: SlotStateView::Bootstrapped },
            loader,
        ) matches SlotActionView::InjectIdentity { statement, .. } && bound_identity(statement)
            == first,
{
    injected_identity_is_the_slot(first);
}

/// Run twice with the same identity over the same program, a slot is asked
/// for the same action in every state: in particular it is pointed at the
/// same main module both times.
pub proof fn same_slot_same_plan(slot: SlotView, first: LoaderView, second: LoaderView)
    requires
        crate::loader::loader_wf(first),
        crate::loader::loader_wf(second),
        first.source == second.source,
    ensures
        action_spec(slot, first) == action_spec(slot, second),
{
}

/// A slot keeps its identity, whatever happens to it.
pub proof fn identity_never_changes(slot: SlotView, events: Seq<SlotEventView>)
    ensures
        run_spec(slot, events).identity == slot.identity,
    decreases events.len(),
{
    if events.len() > 0 {
        identity_never_changes(slot, events.drop_last());
    }
}

/// A slot that has terminated or failed stays as it is, with the error it
/// carries, whatever is reported afterwards.
pub proof fn final_states_absorb(slot: SlotView, events: Seq<SlotEventView>)
    requires
        is_terminal(slot.state),
    ensures
        run_spec(slot, events) == slot,
    decreases events.len(),
{
    if events.len() > 0 {
        final_states_absorb(slot, events.drop_last());
    }
}

/// While every action is carried out, a new slot moves through the states in
/// their order: after five completions it has terminated.
pub proof fn completions_lead_to_termination(identity: nat, events: Seq<SlotEventView>)
    requires
        forall|i: int| 0 <= i < events.len() ==> events[i] is Completed,
    ensures
        run_spec(SlotView { identity, state: SlotStateView::Created }, events) == (SlotView {
            identity,
            state: stage_after(events.len()),
        }),
    decreases events.len(),
{
    if events.len() > 0 {
        let earlier = events.drop_last();
        assert forall|i: int| 0 <= i < earlier.len() implies earlier[i] is Completed by {
            assert(earlier[i] == events[i]);
        }
        completions_lead_to_termination(identity, earlier);
    }
}

/// The first action that fails decides: if the first `at` actions of a new
/// slot were carried out and the next one failed before the slot had
/// terminated, the slot has failed, with its own identity, the kind of the
/// step that failed and the message of that failure, whatever was reported
/// after it.
pub proof fn first_fault_fails_the_slot(identity: nat, events: Seq<SlotEventView>, at: int)
    requires
        0 <= at < events.len(),
        at < 5,
        forall|i: int| 0 <= i < at ==> events[i] is Completed,
        events[at] is Faulted,
    ensures
        run_spec(SlotView { identity, state: SlotStateView::Created }, events).state
            == SlotStateView::Failed(
            SlotErrorView {
                slot: identity,
                kind: failure_kind(stage_after(at as nat)),
                message: events[at]->Faulted_0,
            },
        ),
    decreases events.len(),
{
    let start = SlotView { identity, state: SlotStateView::Created };
    let earlier = events.drop_last();
    if events.len() - 1 == at {
        assert forall|i: int| 0 <= i < earlier.len() implies earlier[i] is Completed by {
            assert(earlier[i] == events[i]);
        }
        completions_lead_to_termination(identity, earlier);
    } else {
        assert(earlier[at] == events[at]);
        assert forall|i: int| 0 <= i < at implies earlier[i] is Completed by {
            assert(earlier[i] == events[i]);
        }
        first_fault_fails_the_slot(identity, earlier, at);
        identity_never_changes(start, earlier);
    }
}

} // verus!
