use crate::contract::{ServiceSelector, ServiceSelectorView};
use crate::directory::{DirectoryState, PublisherCore};
use crate::lifecycle::{ClientError, ClientErrorKind};
use crate::observability::DirectoryMetricState;
use crate::registry::{RegistryError, RegistryErrorKind, RegistryOperation};
use vstd::prelude::*;

verus! {

/// What those waiting on a discovery slot observe.
#[derive(Clone)]
pub enum SlotState {
    /// The first snapshot has not arrived yet.
    Initializing,
    /// A current snapshot is published.
    Ready,
    /// The provider stream is down but the retained snapshot is within its grace period.
    Stale,
    /// No routable snapshot is available.
    Unavailable,
    /// The provider failed with this error.
    Failed(RegistryError),
    /// The provider could not be cleaned up in time and the slot is held back.
    Quarantined,
    /// The subscription has ended.
    Closed,
}

impl SlotState {
    /// Returns an equal copy of this state.
    pub fn duplicate(&self) -> (copy: SlotState)
        ensures
            copy == *self,
    {
        match self {
            SlotState::Initializing => SlotState::Initializing,
            SlotState::Ready => SlotState::Ready,
            SlotState::Stale => SlotState::Stale,
            SlotState::Unavailable => SlotState::Unavailable,
            SlotState::Failed(error) => SlotState::Failed(error.duplicate()),
            SlotState::Quarantined => SlotState::Quarantined,
            SlotState::Closed => SlotState::Closed,
        }
    }
}

/// One piece of outside work a forwarding decision asks for, in the order it is due.
#[derive(Clone)]
pub enum Effect {
    /// Replace the breaker memberships of this subscription with the snapshot's instances.
    ReplaceDiscovery,
    /// Publish the snapshot's instances under `state` as directory revision `revision`.
    PublishSnapshot { state: DirectoryState, revision: u64 },
    /// Publish `state` as revision `revision`, keeping the retained instances.
    PublishState { state: DirectoryState, revision: u64 },
    /// Start the staleness grace period.
    ArmDeadline,
    /// Drop the staleness grace period.
    ClearDeadline,
    /// Show this state to those waiting on the slot.
    SetSlot(SlotState),
    /// Record a directory state change.
    Record(DirectoryMetricState),
    /// Remove the subscription's breaker memberships and release its retained publisher.
    Release,
}

/// The abstract state of a forwarder: the published directory, the slot and the
/// staleness grace period.
pub struct ForwarderView {
    pub state: DirectoryState,
    pub revision: u64,
    pub slot: SlotState,
    pub armed: bool,
}

/// The forwarder after publishing `state` (with the snapshot's instances when
/// `snapshot`), and what that asks for; nothing is published once the revision
/// cannot grow.
pub open spec fn after_publish(v: ForwarderView, state: DirectoryState, snapshot: bool) -> (ForwarderView, Seq<Effect>) {
    if v.revision == u64::MAX {
        (v, Seq::empty())
    } else {
        let revision = (v.revision + 1) as u64;
        (
            ForwarderView { state, revision, slot: v.slot, armed: v.armed },
            seq![
                if snapshot {
                    Effect::PublishSnapshot { state, revision }
                } else {
                    Effect::PublishState { state, revision }
                },
            ],
        )
    }
}

/// Arms the grace period unless it is already running.
pub open spec fn after_arm(v: ForwarderView) -> (ForwarderView, Seq<Effect>) {
    if v.armed {
        (v, Seq::empty())
    } else {
        (ForwarderView { state: v.state, revision: v.revision, slot: v.slot, armed: true }, seq![Effect::ArmDeadline])
    }
}

/// The view with another slot state.
pub open spec fn with_slot(v: ForwarderView, slot: SlotState) -> ForwarderView {
    ForwarderView { state: v.state, revision: v.revision, slot, armed: v.armed }
}

/// The view without a grace period.
pub open spec fn disarmed(v: ForwarderView) -> ForwarderView {
    ForwarderView { state: v.state, revision: v.revision, slot: v.slot, armed: false }
}

/// Forwards one provider snapshot in `incoming` state: `Ready` is published as is;
/// `Stale` is published as `Stale` while the directory is routable, else as
/// `Unavailable`; `Unavailable` as `Unavailable`; `Closed` counts as a disconnect.
pub open spec fn update_snapshot_spec(v: ForwarderView, incoming: DirectoryState) -> (ForwarderView, Seq<Effect>) {
    match incoming {
        DirectoryState::Ready => {
            let (p, e) = after_publish(v, DirectoryState::Ready, true);
            (
                with_slot(disarmed(p), SlotState::Ready),
                seq![Effect::ReplaceDiscovery] + e + seq![
                    Effect::ClearDeadline,
                    Effect::SetSlot(SlotState::Ready),
                    Effect::Record(DirectoryMetricState::Ready),
                ],
            )
        },
        DirectoryState::Stale => if v.state.spec_is_routable() {
            let (p, e) = after_publish(v, DirectoryState::Stale, true);
            let (a, f) = after_arm(p);
            (
                with_slot(a, SlotState::Stale),
                seq![Effect::ReplaceDiscovery] + e + f + seq![
                    Effect::SetSlot(SlotState::Stale),
                    Effect::Record(DirectoryMetricState::Stale),
                ],
            )
        } else {
            forward_unavailable(v)
        },
        DirectoryState::Unavailable => forward_unavailable(v),
        DirectoryState::Closed => mark_disconnected_spec(v),
        DirectoryState::Initializing => (v, Seq::empty()),
    }
}

/// Publishes the snapshot as `Unavailable`.
pub open spec fn forward_unavailable(v: ForwarderView) -> (ForwarderView, Seq<Effect>) {
    let (p, e) = after_publish(v, DirectoryState::Unavailable, true);
    (
        with_slot(disarmed(p), SlotState::Unavailable),
        seq![Effect::ReplaceDiscovery] + e + seq![
            Effect::ClearDeadline,
            Effect::SetSlot(SlotState::Unavailable),
            Effect::Record(DirectoryMetricState::Unavailable),
        ],
    )
}

/// The provider stream was lost: a ready directory turns stale and starts its grace
/// period, a stale one keeps it, an initializing one becomes unavailable.
pub open spec fn mark_disconnected_spec(v: ForwarderView) -> (ForwarderView, Seq<Effect>) {
    match v.state {
        DirectoryState::Ready => {
            let (p, e) = after_publish(v, DirectoryState::Stale, false);
            let (a, f) = after_arm(p);
            (
                with_slot(a, SlotState::Stale),
                e + f + seq![Effect::SetSlot(SlotState::Stale), Effect::Record(DirectoryMetricState::Stale)],
            )
        },
        DirectoryState::Stale => {
            let (a, f) = after_arm(v);
            (with_slot(a, SlotState::Stale), f + seq![Effect::SetSlot(SlotState::Stale)])
        },
        DirectoryState::Initializing => {
            let (p, e) = after_publish(v, DirectoryState::Unavailable, false);
            (
                with_slot(p, SlotState::Unavailable),
                e + seq![
                    Effect::SetSlot(SlotState::Unavailable),
                    Effect::Record(DirectoryMetricState::Unavailable),
                ],
            )
        },
        _ => (v, Seq::empty()),
    }
}

/// The grace period ran out: a stale directory becomes unavailable, and so does a
/// slot that showed it as routable. The grace period is dropped in any case.
pub open spec fn expire_stale_spec(v: ForwarderView) -> (ForwarderView, Seq<Effect>) {
    if v.state != DirectoryState::Stale {
        (disarmed(v), seq![Effect::ClearDeadline])
    } else {
        let (p, e) = after_publish(v, DirectoryState::Unavailable, false);
        let routable_slot = p.slot is Ready || p.slot is Stale;
        (
            disarmed(if routable_slot { with_slot(p, SlotState::Unavailable) } else { p }),
            e + (if routable_slot { seq![Effect::SetSlot(SlotState::Unavailable)] } else { Seq::empty() })
                + seq![Effect::Record(DirectoryMetricState::Unavailable), Effect::ClearDeadline],
        )
    }
}

/// A provider operation failed: a stale directory stays stale; otherwise the slot
/// shows the failure and an initializing directory becomes unavailable.
pub open spec fn provider_failure_spec(v: ForwarderView, error: RegistryError) -> (ForwarderView, Seq<Effect>) {
    if v.state == DirectoryState::Stale {
        (with_slot(v, SlotState::Stale), seq![Effect::SetSlot(SlotState::Stale)])
    } else {
        let (p, e) = if v.state == DirectoryState::Initializing {
            after_publish(v, DirectoryState::Unavailable, false)
        } else {
            (v, Seq::empty())
        };
        (
            with_slot(p, SlotState::Failed(error)),
            e + seq![
                Effect::SetSlot(SlotState::Failed(error)),
                Effect::Record(DirectoryMetricState::Unavailable),
            ],
        )
    }
}

/// The slot state shown while reconnecting, read off the directory.
pub open spec fn retrying_slot(state: DirectoryState) -> SlotState {
    match state {
        DirectoryState::Initializing => SlotState::Initializing,
        DirectoryState::Ready => SlotState::Ready,
        DirectoryState::Stale => SlotState::Stale,
        DirectoryState::Unavailable => SlotState::Unavailable,
        DirectoryState::Closed => SlotState::Closed,
    }
}

/// A new attempt is about to start: the slot mirrors the directory again.
pub open spec fn retrying_spec(v: ForwarderView) -> (ForwarderView, Seq<Effect>) {
    (
        with_slot(v, retrying_slot(v.state)),
        seq![Effect::SetSlot(retrying_slot(v.state))] + if v.state == DirectoryState::Initializing {
            seq![Effect::Record(DirectoryMetricState::Initializing)]
        } else {
            Seq::empty()
        },
    )
}

/// The forwarder's invariant: only the initial snapshot is `Initializing`, and a
/// grace period runs only for a stale directory (or once no further revision can be
/// published).
pub open spec fn forwarder_wf(v: ForwarderView) -> bool {
    &&& v.state == DirectoryState::Initializing ==> v.revision == 0
    &&& v.state != DirectoryState::Closed
    &&& v.armed ==> (v.state == DirectoryState::Stale || v.revision == u64::MAX)
}

/// Forwards one provider's snapshots into a subscription's own directory and slot.
pub struct Forwarder {
    core: PublisherCore,
    slot: SlotState,
    armed: bool,
}

impl View for Forwarder {
    type V = ForwarderView;

    closed spec fn view(&self) -> ForwarderView {
        ForwarderView {
            state: self.core.spec_state(),
            revision: self.core.spec_revision(),
            slot: self.slot,
            armed: self.armed,
        }
    }
}

impl Forwarder {
    /// A forwarder for a new, initializing directory, and the metric it records.
    pub fn new() -> (result: (Forwarder, Effect))
        ensures
            result.0@ == (ForwarderView {
                state: DirectoryState::Initializing,
                revision: 0,
                slot: SlotState::Initializing,
                armed: false,
            }),
            result.1 == Effect::Record(DirectoryMetricState::Initializing),
            forwarder_wf(result.0@),
    {
        (
            Forwarder { core: PublisherCore::new(), slot: SlotState::Initializing, armed: false },
            Effect::Record(DirectoryMetricState::Initializing),
        )
    }

    /// Returns the published directory state.
    pub fn directory_state(&self) -> (state: DirectoryState)
        ensures
            state == self@.state,
    {
        self.core.state()
    }

    /// Returns the latest directory revision.
    pub fn revision(&self) -> (revision: u64)
        ensures
            revision == self@.revision,
    {
        self.core.revision()
    }

    /// Returns the slot state.
    pub fn slot(&self) -> (slot: &SlotState)
        ensures
            *slot == self@.slot,
    {
        &self.slot
    }

    /// Returns whether the staleness grace period is running.
    pub fn is_armed(&self) -> (armed: bool)
        ensures
            armed == self@.armed,
    {
        self.armed
    }

    fn publish(&mut self, state: DirectoryState, snapshot: bool, effects: &mut Vec<Effect>)
        requires
            !state.spec_is_lifecycle_managed(),
        ensures
            final(self)@ == after_publish(old(self)@, state, snapshot).0,
            final(effects)@ == old(effects)@ + after_publish(old(self)@, state, snapshot).1,
    {
        let ghost before = effects@;
        match self.core.publish(state) {
            Ok(revision) => {
                if snapshot {
                    effects.push(Effect::PublishSnapshot { state, revision });
                } else {
                    effects.push(Effect::PublishState { state, revision });
                }
            },
            Err(_) => {},
        }
        assert(effects@ =~= before + after_publish(old(self)@, state, snapshot).1);
    }

    fn arm(&mut self, effects: &mut Vec<Effect>)
        ensures
            final(self)@ == after_arm(old(self)@).0,
            final(effects)@ == old(effects)@ + after_arm(old(self)@).1,
    {
        let ghost before = effects@;
        if !self.armed {
            self.armed = true;
            effects.push(Effect::ArmDeadline);
        }
        assert(effects@ =~= before + after_arm(old(self)@).1);
    }

    fn set_slot(&mut self, slot: SlotState, effects: &mut Vec<Effect>)
        ensures
            final(self)@ == with_slot(old(self)@, slot),
            final(effects)@ == old(effects)@.push(Effect::SetSlot(slot)),
    {
        let copy = slot.duplicate();
        self.slot = slot;
        effects.push(Effect::SetSlot(copy));
    }

    /// Forwards one provider snapshot in state `incoming`; the snapshot's instances go
    /// with every publication this asks for.
    pub fn update_snapshot(&mut self, incoming: DirectoryState, effects: &mut Vec<Effect>)
        requires
            forwarder_wf(old(self)@),
        ensures
            final(self)@ == update_snapshot_spec(old(self)@, incoming).0,
            final(effects)@ == old(effects)@ + update_snapshot_spec(old(self)@, incoming).1,
            forwarder_wf(final(self)@),
    {
        let ghost v = self@;
        let ghost before = effects@;
        match incoming {
            DirectoryState::Ready => {
                effects.push(Effect::ReplaceDiscovery);
                self.publish(DirectoryState::Ready, true, effects);
                self.armed = false;
                effects.push(Effect::ClearDeadline);
                self.set_slot(SlotState::Ready, effects);
                effects.push(Effect::Record(DirectoryMetricState::Ready));
                assert(effects@ =~= before + update_snapshot_spec(v, incoming).1);
            },
            DirectoryState::Stale => {
                if self.core.state().is_routable() {
                    effects.push(Effect::ReplaceDiscovery);
                    self.publish(DirectoryState::Stale, true, effects);
                    self.arm(effects);
                    self.set_slot(SlotState::Stale, effects);
                    effects.push(Effect::Record(DirectoryMetricState::Stale));
                    assert(effects@ =~= before + update_snapshot_spec(v, incoming).1);
                } else {
                    self.forward_unavailable(effects);
                }
            },
            DirectoryState::Unavailable => {
                self.forward_unavailable(effects);
            },
            DirectoryState::Closed => {
                self.mark_disconnected(effects);
            },
            DirectoryState::Initializing => {
                assert(effects@ =~= before + update_snapshot_spec(v, incoming).1);
            },
        }
    }

    fn forward_unavailable(&mut self, effects: &mut Vec<Effect>)
        requires
            forwarder_wf(old(self)@),
        ensures
            final(self)@ == forward_unavailable(old(self)@).0,
            final(effects)@ == old(effects)@ + forward_unavailable(old(self)@).1,
            forwarder_wf(final(self)@),
    {
        let ghost v = self@;
        let ghost before = effects@;
        effects.push(Effect::ReplaceDiscovery);
        self.publish(DirectoryState::Unavailable, true, effects);
        self.armed = false;
        effects.push(Effect::ClearDeadline);
        self.set_slot(SlotState::Unavailable, effects);
        effects.push(Effect::Record(DirectoryMetricState::Unavailable));
        assert(effects@ =~= before + forward_unavailable(v).1);
    }

    /// Handles the loss of the provider stream.
    pub fn mark_disconnected(&mut self, effects: &mut Vec<Effect>)
        requires
            forwarder_wf(old(self)@),
        ensures
            final(self)@ == mark_disconnected_spec(old(self)@).0,
            final(effects)@ == old(effects)@ + mark_disconnected_spec(old(self)@).1,
            forwarder_wf(final(self)@),
    {
        let ghost v = self@;
        let ghost before = effects@;
        match self.core.state() {
            DirectoryState::Ready => {
                self.publish(DirectoryState::Stale, false, effects);
                self.arm(effects);
                self.set_slot(SlotState::Stale, effects);
                effects.push(Effect::Record(DirectoryMetricState::Stale));
            },
            DirectoryState::Stale => {
                self.arm(effects);
                self.set_slot(SlotState::Stale, effects);
            },
            DirectoryState::Initializing => {
                self.publish(DirectoryState::Unavailable, false, effects);
                self.set_slot(SlotState::Unavailable, effects);
                effects.push(Effect::Record(DirectoryMetricState::Unavailable));
            },
            _ => {},
        }
        assert(effects@ =~= before + mark_disconnected_spec(v).1);
    }

    /// Handles the end of the staleness grace period.
    pub fn expire_stale(&mut self, effects: &mut Vec<Effect>)
        requires
            forwarder_wf(old(self)@),
        ensures
            final(self)@ == expire_stale_spec(old(self)@).0,
            final(effects)@ == old(effects)@ + expire_stale_spec(old(self)@).1,
            forwarder_wf(final(self)@),
    {
        let ghost v = self@;
        let ghost before = effects@;
        if self.core.state() == DirectoryState::Stale {
            self.publish(DirectoryState::Unavailable, false, effects);
            let routable_slot = match &self.slot {
                SlotState::Ready | SlotState::Stale => true,
                _ => false,
            };
            if routable_slot {
                self.set_slot(SlotState::Unavailable, effects);
            }
            effects.push(Effect::Record(DirectoryMetricState::Unavailable));
        }
        self.armed = false;
        effects.push(Effect::ClearDeadline);
        assert(effects@ =~= before + expire_stale_spec(v).1);
    }

    /// Handles a failed provider operation.
    pub fn provider_failure(&mut self, error: RegistryError, effects: &mut Vec<Effect>)
        requires
            forwarder_wf(old(self)@),
        ensures
            final(self)@ == provider_failure_spec(old(self)@, error).0,
            final(effects)@ == old(effects)@ + provider_failure_spec(old(self)@, error).1,
            forwarder_wf(final(self)@),
    {
        let ghost v = self@;
        let ghost before = effects@;
        let state = self.core.state();
        if state == DirectoryState::Stale {
            self.set_slot(SlotState::Stale, effects);
        } else {
            if state == DirectoryState::Initializing {
                self.publish(DirectoryState::Unavailable, false, effects);
            }
            self.set_slot(SlotState::Failed(error), effects);
            effects.push(Effect::Record(DirectoryMetricState::Unavailable));
        }
        assert(effects@ =~= before + provider_failure_spec(v, error).1);
    }

    /// Shows the directory's own state on the slot before a new attempt.
    pub fn retrying(&mut self, effects: &mut Vec<Effect>)
        requires
            forwarder_wf(old(self)@),
        ensures
            final(self)@ == retrying_spec(old(self)@).0,
            final(effects)@ == old(effects)@ + retrying_spec(old(self)@).1,
            forwarder_wf(final(self)@),
    {
        let ghost v = self@;
        let ghost before = effects@;
        let state = self.core.state();
        let slot = match state {
            DirectoryState::Initializing => SlotState::Initializing,
            DirectoryState::Ready => SlotState::Ready,
            DirectoryState::Stale => SlotState::Stale,
            DirectoryState::Unavailable => SlotState::Unavailable,
            DirectoryState::Closed => SlotState::Closed,
        };
        self.set_slot(slot, effects);
        if state == DirectoryState::Initializing {
            effects.push(Effect::Record(DirectoryMetricState::Initializing));
        }
        assert(effects@ =~= before + retrying_spec(v).1);
    }

    /// Shows `slot` to those waiting, outside the provider transitions (a quarantine
    /// or a terminal state).
    pub fn show(&mut self, slot: SlotState, effects: &mut Vec<Effect>)
        requires
            forwarder_wf(old(self)@),
        ensures
            final(self)@ == with_slot(old(self)@, slot),
            final(effects)@ == old(effects)@.push(Effect::SetSlot(slot)),
            forwarder_wf(final(self)@),
    {
        self.set_slot(slot, effects);
    }
}

/// Where a subscription's supervisor stands in its reconnect loop.
#[derive(Clone, Copy, Debug, PartialEq, Eq, Structural)]
pub enum Phase {
    /// At the top of the loop, before a new generation.
    Start,
    /// Preparing a provider subscription.
    Preparing,
    /// Waiting for the prepared subscription to activate.
    Activating,
    /// Forwarding the active generation's snapshots.
    Watching,
    /// Closing the current generation.
    Closing,
    /// Waiting out the reconnect delay.
    Backoff,
    /// The loop has ended; the final effects are still due.
    Ending,
    /// The supervisor has finished.
    Finished,
}

/// What follows a generation's close when it succeeds.
#[derive(Clone, Copy, Debug, PartialEq, Eq, Structural)]
pub enum AfterClose {
    /// End the loop.
    Stop,
    /// Reconnect after a delay.
    Retry,
    /// Reconnect after a delay unless shutdown was requested.
    RetryUnlessCancelled,
}

/// How preparing a provider subscription went.
pub enum Prepared {
    /// A subscription handle was prepared.
    Handle,
    /// The provider refused with this error.
    Failed(RegistryError),
    /// The provider panicked.
    Panicked,
}

/// How activating a prepared subscription went.
pub enum Activation {
    /// Shutdown was requested first.
    Cancelled,
    /// The provider's directory is available.
    Activated,
    /// The provider failed with this error.
    Failed(RegistryError),
    /// Activation did not finish within the operation timeout.
    TimedOut,
}

/// The outside work the supervisor asks for next.
#[derive(Clone, Copy, Debug, PartialEq, Eq, Structural)]
pub enum Next {
    /// Prepare a provider subscription.
    Prepare,
    /// Activate the prepared subscription within the operation timeout.
    Activate,
    /// Wait for the next provider snapshot, the end of the stream or shutdown.
    Watch,
    /// Request close of the generation and wait for it within the close timeout.
    CloseGeneration,
    /// Sleep for a full-jitter delay for this reconnect attempt, unless shut down.
    Backoff(u8),
    /// Start the next generation.
    Restart,
    /// Apply the final effects.
    Finish,
}

/// The abstract state of a subscription supervisor.
pub struct SupervisorView {
    pub forwarder: ForwarderView,
    pub phase: Phase,
    pub attempt: u8,
    pub terminal: SlotState,
    pub after_close: AfterClose,
}

/// The slot states a supervisor may end in.
pub open spec fn is_terminal(slot: SlotState) -> bool {
    slot is Closed || slot is Quarantined || slot is Failed
}

/// The supervisor's invariant: its forwarder is well formed and its terminal state
/// is one a supervisor may end in.
pub open spec fn supervisor_wf(v: SupervisorView) -> bool {
    forwarder_wf(v.forwarder) && is_terminal(v.terminal)
}

/// The attempt count after one more reconnect, saturating at its maximum.
pub open spec fn next_attempt(attempt: u8) -> u8 {
    if attempt == u8::MAX {
        attempt
    } else {
        (attempt + 1) as u8
    }
}

/// Drives one subscription: it prepares, activates and watches provider generations,
/// reconnecting with backoff, and forwards what it sees into its directory and slot.
pub struct Supervisor {
    forwarder: Forwarder,
    phase: Phase,
    attempt: u8,
    terminal: SlotState,
    after_close: AfterClose,
}

impl View for Supervisor {
    type V = SupervisorView;

    closed spec fn view(&self) -> SupervisorView {
        SupervisorView {
            forwarder: self.forwarder@,
            phase: self.phase,
            attempt: self.attempt,
            terminal: self.terminal,
            after_close: self.after_close,
        }
    }
}

impl Supervisor {
    /// A supervisor at the top of its loop for a new, initializing directory.
    pub fn new(effects: &mut Vec<Effect>) -> (supervisor: Supervisor)
        ensures
            supervisor@.forwarder == (ForwarderView {
                state: DirectoryState::Initializing,
                revision: 0,
                slot: SlotState::Initializing,
                armed: false,
            }),
            supervisor@.phase == Phase::Start,
            supervisor@.attempt == 0,
            supervisor@.terminal == SlotState::Closed,
            final(effects)@ == old(effects)@.push(Effect::Record(DirectoryMetricState::Initializing)),
            supervisor_wf(supervisor@),
    {
        let (forwarder, record) = Forwarder::new();
        effects.push(record);
        Supervisor { forwarder, phase: Phase::Start, attempt: 0, terminal: SlotState::Closed, after_close: AfterClose::Stop }
    }

    /// Returns the forwarder.
    pub fn forwarder(&self) -> (forwarder: &Forwarder)
        ensures
            forwarder@ == self@.forwarder,
    {
        &self.forwarder
    }

    /// Returns the phase.
    pub fn phase(&self) -> (phase: Phase)
        ensures
            phase == self@.phase,
    {
        self.phase
    }

    /// Returns the reconnect attempt count.
    pub fn attempt(&self) -> (attempt: u8)
        ensures
            attempt == self@.attempt,
    {
        self.attempt
    }

    fn backoff(&mut self) -> (next: Next)
        requires
            supervisor_wf(old(self)@),
        ensures
            final(self)@ == (SupervisorView { phase: Phase::Backoff, attempt: next_attempt(old(self)@.attempt), ..old(self)@ }),
            next == Next::Backoff(next_attempt(old(self)@.attempt)),
    {
        self.attempt = self.attempt.saturating_add(1);
        self.phase = Phase::Backoff;
        Next::Backoff(self.attempt)
    }

    /// Starts a new generation unless shutdown was requested.
    pub fn begin(&mut self, cancelled: bool) -> (next: Next)
        requires
            old(self)@.phase == Phase::Start,
            supervisor_wf(old(self)@),
        ensures
            cancelled ==> next == Next::Finish && final(self)@ == (SupervisorView { phase: Phase::Ending, ..old(self)@ }),
            !cancelled ==> next == Next::Prepare && final(self)@ == (SupervisorView { phase: Phase::Preparing, ..old(self)@ }),
            supervisor_wf(final(self)@),
    {
        if cancelled {
            self.phase = Phase::Ending;
            Next::Finish
        } else {
            self.phase = Phase::Preparing;
            Next::Prepare
        }
    }

    /// Handles the outcome of preparing a subscription: a refusal is shown and
    /// retried after a delay; a panic quarantines the slot and ends the loop.
    pub fn prepared(&mut self, outcome: Prepared, effects: &mut Vec<Effect>) -> (next: Next)
        requires
            old(self)@.phase == Phase::Preparing,
            supervisor_wf(old(self)@),
        ensures
            supervisor_wf(final(self)@),
            outcome is Handle ==> next == Next::Activate && final(self)@ == (SupervisorView { phase: Phase::Activating, ..old(self)@ })
                && final(effects)@ == old(effects)@,
            outcome matches Prepared::Failed(error) ==> {
                &&& next == Next::Backoff(next_attempt(old(self)@.attempt))
                &&& final(self)@ == (SupervisorView {
                    forwarder: provider_failure_spec(old(self)@.forwarder, error).0,
                    phase: Phase::Backoff,
                    attempt: next_attempt(old(self)@.attempt),
                    ..old(self)@
                })
                &&& final(effects)@ == old(effects)@ + provider_failure_spec(old(self)@.forwarder, error).1
            },
            outcome is Panicked ==> {
                &&& next == Next::Finish
                &&& final(self)@ == (SupervisorView {
                    forwarder: with_slot(old(self)@.forwarder, SlotState::Quarantined),
                    phase: Phase::Ending,
                    terminal: SlotState::Quarantined,
                    ..old(self)@
                })
                &&& final(effects)@ == old(effects)@ + seq![
                    Effect::SetSlot(SlotState::Quarantined),
                    Effect::Record(DirectoryMetricState::Unavailable),
                ]
            },
    {
        match outcome {
            Prepared::Handle => {
                self.phase = Phase::Activating;
                Next::Activate
            },
            Prepared::Failed(error) => {
                self.forwarder.provider_failure(error, effects);
                self.backoff()
            },
            Prepared::Panicked => {
                let ghost before = effects@;
                self.terminal = SlotState::Quarantined;
                self.forwarder.show(SlotState::Quarantined, effects);
                effects.push(Effect::Record(DirectoryMetricState::Unavailable));
                self.phase = Phase::Ending;
                assert(effects@ =~= before + seq![
                    Effect::SetSlot(SlotState::Quarantined),
                    Effect::Record(DirectoryMetricState::Unavailable),
                ]);
                Next::Finish
            },
        }
    }

    /// Handles the outcome of activation. A success resets the reconnect attempts;
    /// every other outcome closes the generation, which is retried unless shutdown
    /// was requested.
    pub fn activated(&mut self, outcome: Activation, effects: &mut Vec<Effect>) -> (next: Next)
        requires
            old(self)@.phase == Phase::Activating,
            supervisor_wf(old(self)@),
        ensures
            supervisor_wf(final(self)@),
            outcome is Activated ==> next == Next::Watch && final(self)@ == (SupervisorView {
                phase: Phase::Watching,
                attempt: 0,
                ..old(self)@
            }) && final(effects)@ == old(effects)@,
            outcome is Cancelled ==> next == Next::CloseGeneration && final(self)@ == (SupervisorView {
                phase: Phase::Closing,
                after_close: AfterClose::Stop,
                ..old(self)@
            }) && final(effects)@ == old(effects)@,
            outcome matches Activation::Failed(error) ==> {
                &&& next == Next::CloseGeneration
                &&& final(self)@ == (SupervisorView {
                    forwarder: provider_failure_spec(old(self)@.forwarder, error).0,
                    phase: Phase::Closing,
                    after_close: AfterClose::Retry,
                    ..old(self)@
                })
                &&& final(effects)@ == old(effects)@ + provider_failure_spec(old(self)@.forwarder, error).1
            },
            outcome is TimedOut ==> {
                &&& next == Next::CloseGeneration
                &&& final(self)@ == (SupervisorView {
                    forwarder: with_slot(mark_disconnected_spec(old(self)@.forwarder).0, SlotState::Quarantined),
                    phase: Phase::Closing,
                    after_close: AfterClose::Retry,
                    ..old(self)@
                })
                &&& final(effects)@ == old(effects)@ + mark_disconnected_spec(old(self)@.forwarder).1 + seq![
                    Effect::SetSlot(SlotState::Quarantined),
                    Effect::Record(DirectoryMetricState::Unavailable),
                ]
            },
    {
        match outcome {
            Activation::Activated => {
                self.attempt = 0;
                self.phase = Phase::Watching;
                Next::Watch
            },
            Activation::Cancelled => {
                self.after_close = AfterClose::Stop;
                self.phase = Phase::Closing;
                Next::CloseGeneration
            },
            Activation::Failed(error) => {
                self.forwarder.provider_failure(error, effects);
                self.after_close = AfterClose::Retry;
                self.phase = Phase::Closing;
                Next::CloseGeneration
            },
            Activation::TimedOut => {
                self.forwarder.mark_disconnected(effects);
                let ghost middle = effects@;
                self.forwarder.show(SlotState::Quarantined, effects);
                effects.push(Effect::Record(DirectoryMetricState::Unavailable));
                assert(effects@ =~= middle + seq![
                    Effect::SetSlot(SlotState::Quarantined),
                    Effect::Record(DirectoryMetricState::Unavailable),
                ]);
                self.after_close = AfterClose::Retry;
                self.phase = Phase::Closing;
                Next::CloseGeneration
            },
        }
    }

    /// Forwards one snapshot of the active generation.
    pub fn snapshot(&mut self, incoming: DirectoryState, effects: &mut Vec<Effect>) -> (next: Next)
        requires
            old(self)@.phase == Phase::Watching,
            supervisor_wf(old(self)@),
        ensures
            next == Next::Watch,
            final(self)@ == (SupervisorView {
                forwarder: update_snapshot_spec(old(self)@.forwarder, incoming).0,
                ..old(self)@
            }),
            final(effects)@ == old(effects)@ + update_snapshot_spec(old(self)@.forwarder, incoming).1,
            supervisor_wf(final(self)@),
    {
        self.forwarder.update_snapshot(incoming, effects);
        Next::Watch
    }

    /// Handles the end of the staleness grace period, in whatever phase it ran out.
    pub fn deadline(&mut self, effects: &mut Vec<Effect>)
        requires
            old(self)@.phase != Phase::Ending,
            old(self)@.phase != Phase::Finished,
            supervisor_wf(old(self)@),
        ensures
            final(self)@ == (SupervisorView {
                forwarder: expire_stale_spec(old(self)@.forwarder).0,
                ..old(self)@
            }),
            final(effects)@ == old(effects)@ + expire_stale_spec(old(self)@.forwarder).1,
            supervisor_wf(final(self)@),
    {
        self.forwarder.expire_stale(effects);
    }

    /// Handles the end of the active generation: by shutdown, or by the provider
    /// stream ending, which counts as a disconnect.
    pub fn watch_ended(&mut self, provider_disconnected: bool, effects: &mut Vec<Effect>) -> (next: Next)
        requires
            old(self)@.phase == Phase::Watching,
            supervisor_wf(old(self)@),
        ensures
            next == Next::CloseGeneration,
            provider_disconnected ==> final(self)@ == (SupervisorView {
                forwarder: mark_disconnected_spec(old(self)@.forwarder).0,
                phase: Phase::Closing,
                after_close: AfterClose::RetryUnlessCancelled,
                ..old(self)@
            }) && final(effects)@ == old(effects)@ + mark_disconnected_spec(old(self)@.forwarder).1,
            !provider_disconnected ==> final(self)@ == (SupervisorView {
                phase: Phase::Closing,
                after_close: AfterClose::RetryUnlessCancelled,
                ..old(self)@
            }) && final(effects)@ == old(effects)@,
            supervisor_wf(final(self)@),
    {
        if provider_disconnected {
            self.forwarder.mark_disconnected(effects);
        }
        self.after_close = AfterClose::RetryUnlessCancelled;
        self.phase = Phase::Closing;
        Next::CloseGeneration
    }

    /// The close timeout ran out: the slot is quarantined while the close goes on.
    pub fn close_timed_out(&mut self, effects: &mut Vec<Effect>)
        requires
            old(self)@.phase == Phase::Closing,
            supervisor_wf(old(self)@),
        ensures
            final(self)@ == (SupervisorView {
                forwarder: with_slot(old(self)@.forwarder, SlotState::Quarantined),
                ..old(self)@
            }),
            final(effects)@ == old(effects)@.push(Effect::SetSlot(SlotState::Quarantined)),
            supervisor_wf(final(self)@),
    {
        self.forwarder.show(SlotState::Quarantined, effects);
    }

    /// Handles the result of closing a generation. A close failure ends the loop in
    /// `Failed`; otherwise the loop stops or reconnects as the generation's end asked.
    pub fn closed(&mut self, result: Result<(), RegistryError>, cancelled: bool, effects: &mut Vec<Effect>) -> (next: Next)
        requires
            old(self)@.phase == Phase::Closing,
            supervisor_wf(old(self)@),
        ensures
            supervisor_wf(final(self)@),
            result matches Err(error) ==> {
                &&& next == Next::Finish
                &&& final(self)@ == (SupervisorView {
                    forwarder: with_slot(old(self)@.forwarder, SlotState::Failed(error)),
                    phase: Phase::Ending,
                    terminal: SlotState::Failed(error),
                    ..old(self)@
                })
                &&& final(effects)@ == old(effects)@.push(Effect::SetSlot(SlotState::Failed(error)))
            },
            result is Ok && (old(self)@.after_close == AfterClose::Stop
                || (old(self)@.after_close == AfterClose::RetryUnlessCancelled && cancelled)) ==> {
                &&& next == Next::Finish
                &&& final(self)@ == (SupervisorView { phase: Phase::Ending, ..old(self)@ })
                &&& final(effects)@ == old(effects)@
            },
            result is Ok && (old(self)@.after_close == AfterClose::Retry
                || (old(self)@.after_close == AfterClose::RetryUnlessCancelled && !cancelled)) ==> {
                &&& next == Next::Backoff(next_attempt(old(self)@.attempt))
                &&& final(self)@ == (SupervisorView {
                    phase: Phase::Backoff,
                    attempt: next_attempt(old(self)@.attempt),
                    ..old(self)@
                })
                &&& final(effects)@ == old(effects)@
            },
    {
        match result {
            Err(error) => {
                let copy = error.duplicate();
                self.terminal = SlotState::Failed(error);
                self.forwarder.show(SlotState::Failed(copy), effects);
                self.phase = Phase::Ending;
                Next::Finish
            },
            Ok(()) => {
                let stop = match self.after_close {
                    AfterClose::Stop => true,
                    AfterClose::Retry => false,
                    AfterClose::RetryUnlessCancelled => cancelled,
                };
                if stop {
                    self.phase = Phase::Ending;
                    Next::Finish
                } else {
                    self.backoff()
                }
            },
        }
    }

    /// Handles the end of a reconnect delay: interrupted by shutdown it ends the loop,
    /// otherwise the slot mirrors the directory again and the next generation starts.
    pub fn backoff_done(&mut self, completed: bool, effects: &mut Vec<Effect>) -> (next: Next)
        requires
            old(self)@.phase == Phase::Backoff,
            supervisor_wf(old(self)@),
        ensures
            !completed ==> next == Next::Finish && final(self)@ == (SupervisorView { phase: Phase::Ending, ..old(self)@ })
                && final(effects)@ == old(effects)@,
            completed ==> next == Next::Restart && final(self)@ == (SupervisorView {
                forwarder: retrying_spec(old(self)@.forwarder).0,
                phase: Phase::Start,
                ..old(self)@
            }) && final(effects)@ == old(effects)@ + retrying_spec(old(self)@.forwarder).1,
            supervisor_wf(final(self)@),
    {
        if completed {
            self.forwarder.retrying(effects);
            self.phase = Phase::Start;
            Next::Restart
        } else {
            self.phase = Phase::Ending;
            Next::Finish
        }
    }

    /// Applies the final effects: the terminal state is shown, the subscription's
    /// memberships and retained publisher are released unless the runtime is shutting
    /// down (its shutdown releases them), and the closed state is recorded.
    pub fn finish(&mut self, cancelled: bool, effects: &mut Vec<Effect>)
        requires
            old(self)@.phase == Phase::Ending,
            supervisor_wf(old(self)@),
        ensures
            final(self)@ == (SupervisorView {
                forwarder: with_slot(old(self)@.forwarder, old(self)@.terminal),
                phase: Phase::Finished,
                ..old(self)@
            }),
            final(effects)@ == old(effects)@ + seq![Effect::SetSlot(old(self)@.terminal)]
                + (if cancelled { Seq::empty() } else { seq![Effect::Release] })
                + seq![Effect::Record(DirectoryMetricState::Closed)],
            is_terminal(final(self)@.forwarder.slot),
            supervisor_wf(final(self)@),
    {
        let ghost before = effects@;
        let terminal = self.terminal.duplicate();
        self.forwarder.show(terminal, effects);
        if !cancelled {
            effects.push(Effect::Release);
        }
        effects.push(Effect::Record(DirectoryMetricState::Closed));
        self.phase = Phase::Finished;
        assert(effects@ =~= before + seq![Effect::SetSlot(old(self)@.terminal)]
            + (if cancelled { Seq::empty() } else { seq![Effect::Release] })
            + seq![Effect::Record(DirectoryMetricState::Closed)]);
    }
}

/// What a caller waiting for a slot gets in `slot`: `None` while it is initializing,
/// the directory for a routable slot, and otherwise an error of the discovery,
/// closed or timeout kind.
pub open spec fn readiness_spec(slot: SlotState) -> Option<Result<(), (ClientErrorKind, Seq<char>, Option<Seq<char>>)>> {
    match slot {
        SlotState::Initializing => None,
        SlotState::Ready | SlotState::Stale => Some(Ok(())),
        SlotState::Failed(error) => Some(Err((
            ClientErrorKind::Discovery,
            "registry subscription failed"@,
            Some(render_registry_error(error)),
        ))),
        SlotState::Quarantined => Some(Err((
            ClientErrorKind::Discovery,
            "subscription is quarantined until provider cleanup completes"@,
            None,
        ))),
        SlotState::Unavailable => Some(Err((ClientErrorKind::Discovery, "service directory is unavailable"@, None))),
        SlotState::Closed => Some(Err((ClientErrorKind::Closed, "client runtime is draining or closed"@, None))),
    }
}

/// The rendering of a registry error.
pub open spec fn render_registry_error(error: RegistryError) -> Seq<char> {
    "registry "@ + error.spec_operation().spec_name() + " failed ("@ + error.spec_kind().spec_name() + "): "@
        + error.spec_message()
}

/// The kind, message and source of a client error.
pub open spec fn client_error_parts(error: ClientError) -> (ClientErrorKind, Seq<char>, Option<Seq<char>>) {
    (error.spec_kind(), error.spec_message(), error.spec_source())
}

/// Decides what a caller waiting on a slot in state `slot` gets: `None` means keep
/// waiting for the next state.
pub fn readiness(slot: &SlotState) -> (outcome: Option<Result<(), ClientError>>)
    ensures
        match (outcome, readiness_spec(*slot)) {
            (None, None) => true,
            (Some(Ok(())), Some(Ok(()))) => true,
            (Some(Err(e)), Some(Err(parts))) => client_error_parts(e) == parts,
            _ => false,
        },
{
    match slot {
        SlotState::Initializing => None,
        SlotState::Ready | SlotState::Stale => Some(Ok(())),
        SlotState::Failed(error) => {
            let source = error.render();
            Some(Err(ClientError::with_source(ClientErrorKind::Discovery, "registry subscription failed", source.as_str())))
        },
        SlotState::Quarantined => Some(Err(ClientError::from_message(
            ClientErrorKind::Discovery,
            "subscription is quarantined until provider cleanup completes",
        ))),
        SlotState::Unavailable => Some(Err(ClientError::from_message(
            ClientErrorKind::Discovery,
            "service directory is unavailable",
        ))),
        SlotState::Closed => Some(Err(closed())),
    }
}

/// The error of a runtime that is draining or closed.
pub fn closed() -> (error: ClientError)
    ensures
        error.spec_kind() == ClientErrorKind::Closed,
        error.spec_message() == "client runtime is draining or closed"@,
        error.spec_source() is None,
{
    ClientError::from_message(ClientErrorKind::Closed, "client runtime is draining or closed")
}

/// The error of an initial discovery that missed its deadline.
pub fn initial_discovery_timed_out() -> (error: ClientError)
    ensures
        error.spec_kind() == ClientErrorKind::Timeout,
        error.spec_message() == "initial discovery did not become Ready before its deadline"@,
        error.spec_source() is None,
{
    ClientError::from_message(ClientErrorKind::Timeout, "initial discovery did not become Ready before its deadline")
}

/// The close result of a finished slot: its failure, if it ended in one.
pub fn completion_result(slot: &SlotState) -> (result: Result<(), RegistryError>)
    ensures
        *slot matches SlotState::Failed(error) ==> result == Err::<(), RegistryError>(error),
        !(slot is Failed) ==> result is Ok,
{
    match slot {
        SlotState::Failed(error) => Err(error.duplicate()),
        _ => Ok(()),
    }
}

/// The error of a supervisor that ended without reporting its terminal state.
pub fn supervisor_lost() -> (error: RegistryError)
    ensures
        error.spec_operation() == RegistryOperation::CloseSubscription,
        error.spec_kind() == RegistryErrorKind::CleanupAborted,
        error.spec_message() == "subscription supervisor ended without a terminal result"@,
{
    RegistryError::message(
        RegistryOperation::CloseSubscription,
        RegistryErrorKind::CleanupAborted,
        "subscription supervisor ended without a terminal result",
    )
}

/// The first failure among close results, in order.
pub open spec fn first_failure(outcomes: Seq<Result<(), RegistryError>>) -> Result<(), RegistryError>
    decreases outcomes.len(),
{
    if outcomes.len() == 0 {
        Ok(())
    } else if outcomes[0] is Err {
        outcomes[0]
    } else {
        first_failure(outcomes.drop_first())
    }
}

/// Combines the close results of all slots: the first failure wins.
pub fn combine_close_results(outcomes: Vec<Result<(), RegistryError>>) -> (result: Result<(), RegistryError>)
    ensures
        result == first_failure(outcomes@),
{
    let ghost all = outcomes@;
    let mut i: usize = 0;
    assert(all.skip(0) =~= all);
    while i < outcomes.len()
        invariant
            all == outcomes@,
            i <= all.len(),
            first_failure(all) == first_failure(all.skip(i as int)),
        decreases all.len() - i,
    {
        assert(all.skip(i as int)[0] == all[i as int]);
        assert(all.skip(i as int).drop_first() =~= all.skip(i + 1));
        match &outcomes[i] {
            Err(error) => {
                return Err(error.duplicate());
            },
            Ok(()) => {},
        }
        i = i + 1;
    }
    Ok(())
}

/// Where an acquired subscription stands in the table.
#[derive(Clone, Copy, Debug, PartialEq, Eq, Structural)]
pub enum Acquired {
    /// The selector already had this slot.
    Existing(usize),
    /// A new slot was created at this index; its supervisor must be started.
    Created(usize),
}

/// The subscriptions of one runtime, one slot per selector, in creation order.
pub struct SubscriptionTable {
    selectors: Vec<ServiceSelector>,
    closed: bool,
}

/// The abstract content of a [`SubscriptionTable`].
pub struct SubscriptionTableView {
    pub selectors: Seq<ServiceSelectorView>,
    pub closed: bool,
}

/// Whether no selector occurs twice.
pub open spec fn unique_selectors(selectors: Seq<ServiceSelectorView>) -> bool {
    forall|i: int, j: int| 0 <= i < j < selectors.len() ==> selectors[i] != selectors[j]
}

impl View for SubscriptionTable {
    type V = SubscriptionTableView;

    closed spec fn view(&self) -> SubscriptionTableView {
        SubscriptionTableView {
            selectors: self.selectors@.map_values(|s: ServiceSelector| s@),
            closed: self.closed,
        }
    }
}

impl SubscriptionTable {
    /// An open table without subscriptions.
    pub fn new() -> (table: Self)
        ensures
            table@.selectors.len() == 0,
            !table@.closed,
    {
        SubscriptionTable { selectors: Vec::new(), closed: false }
    }

    /// Finds or creates the slot of `selector`. A closed table refuses, and so does a
    /// table that already holds `max_subscriptions` slots when a new one is needed.
    pub fn acquire(&mut self, selector: ServiceSelector, max_subscriptions: usize) -> (result: Result<Acquired, ClientError>)
        requires
            unique_selectors(old(self)@.selectors),
        ensures
            unique_selectors(final(self)@.selectors),
            final(self)@.closed == old(self)@.closed,
            old(self)@.closed ==> (result matches Err(e) && client_error_parts(e)
                == (ClientErrorKind::Closed, "client runtime is draining or closed"@, None::<Seq<char>>))
                && final(self)@ == old(self)@,
            !old(self)@.closed && old(self)@.selectors.contains(selector@) ==> (result matches Ok(Acquired::Existing(i))
                && i < old(self)@.selectors.len() && old(self)@.selectors[i as int] == selector@)
                && final(self)@ == old(self)@,
            !old(self)@.closed && !old(self)@.selectors.contains(selector@)
                && old(self)@.selectors.len() >= max_subscriptions ==> (result matches Err(e) && client_error_parts(e)
                == (ClientErrorKind::Discovery, "runtime subscription limit reached"@, None::<Seq<char>>))
                && final(self)@ == old(self)@,
            !old(self)@.closed && !old(self)@.selectors.contains(selector@)
                && old(self)@.selectors.len() < max_subscriptions ==> result == Ok::<Acquired, ClientError>(
                Acquired::Created(old(self)@.selectors.len() as usize)) && final(self)@.selectors
                == old(self)@.selectors.push(selector@),
    {
        if self.closed {
            return Err(closed());
        }
        let ghost views = self@.selectors;
        let mut i: usize = 0;
        while i < self.selectors.len()
            invariant
                views == self@.selectors,
                self@ == old(self)@,
                !old(self)@.closed,
                unique_selectors(views),
                i <= views.len(),
                forall|k: int| 0 <= k < i ==> views[k] != selector@,
            decreases views.len() - i,
        {
            if self.selectors[i].same_as(&selector) {
                assert(views[i as int] == selector@);
                assert(views.contains(selector@));
                return Ok(Acquired::Existing(i));
            }
            i = i + 1;
        }
        if self.selectors.len() >= max_subscriptions {
            return Err(ClientError::from_message(ClientErrorKind::Discovery, "runtime subscription limit reached"));
        }
        let index = self.selectors.len();
        self.selectors.push(selector);
        assert(self@.selectors =~= views.push(selector@));
        Ok(Acquired::Created(index))
    }

    /// Closes the table to new subscriptions; returns whether this call closed it.
    pub fn begin_shutdown(&mut self) -> (first: bool)
        ensures
            first == !old(self)@.closed,
            final(self)@.closed,
            final(self)@.selectors == old(self)@.selectors,
    {
        let first = !self.closed;
        self.closed = true;
        first
    }

    /// Returns whether the table is closed.
    pub fn is_closed(&self) -> (closed: bool)
        ensures
            closed == self@.closed,
    {
        self.closed
    }

    /// Returns the selectors of all slots, in creation order.
    pub fn selectors(&self) -> (selectors: &Vec<ServiceSelector>)
        ensures
            selectors@.map_values(|s: ServiceSelector| s@) == self@.selectors,
    {
        &self.selectors
    }
}

/// How a provider snapshot is forwarded. A `Ready` snapshot is published as the next
/// revision in `Ready`, shown as `Ready`, and ends any grace period. A `Stale` snapshot
/// received while the directory is routable is published as `Stale`, shown as `Stale`,
/// and runs the grace period; received otherwise it is published as `Unavailable`. An
/// `Unavailable` snapshot is published as `Unavailable` and ends any grace period.
/// Each publication carries the snapshot's instances.
pub proof fn lemma_snapshot_forwarding(v: ForwarderView, incoming: DirectoryState)
    requires
        forwarder_wf(v),
        v.revision < u64::MAX,
    ensures
        incoming == DirectoryState::Ready ==> ({
            let (next, effects) = update_snapshot_spec(v, incoming);
            &&& next.state == DirectoryState::Ready
            &&& next.revision == v.revision + 1
            &&& next.slot == SlotState::Ready
            &&& !next.armed
            &&& effects.contains(Effect::PublishSnapshot { state: DirectoryState::Ready, revision: (v.revision + 1) as u64 })
        }),
        incoming == DirectoryState::Stale && (v.state == DirectoryState::Ready || v.state == DirectoryState::Stale) ==> ({
            let (next, effects) = update_snapshot_spec(v, incoming);
            &&& next.state == DirectoryState::Stale
            &&& next.state.spec_is_routable()
            &&& next.revision == v.revision + 1
            &&& next.slot == SlotState::Stale
            &&& next.armed
            &&& effects.contains(Effect::PublishSnapshot { state: DirectoryState::Stale, revision: (v.revision + 1) as u64 })
        }),
        (incoming == DirectoryState::Unavailable || (incoming == DirectoryState::Stale
            && !(v.state == DirectoryState::Ready || v.state == DirectoryState::Stale))) ==> ({
            let (next, effects) = update_snapshot_spec(v, incoming);
            &&& next.state == DirectoryState::Unavailable
            &&& !next.state.spec_is_routable()
            &&& next.revision == v.revision + 1
            &&& next.slot == SlotState::Unavailable
            &&& !next.armed
            &&& effects.contains(
                Effect::PublishSnapshot { state: DirectoryState::Unavailable, revision: (v.revision + 1) as u64 })
        }),
{
    let (next, effects) = update_snapshot_spec(v, incoming);
    let rev = (v.revision + 1) as u64;
    if incoming == DirectoryState::Ready {
        assert(effects[1] == Effect::PublishSnapshot { state: DirectoryState::Ready, revision: rev });
    } else if incoming == DirectoryState::Stale && (v.state == DirectoryState::Ready || v.state == DirectoryState::Stale) {
        assert(effects[1] == Effect::PublishSnapshot { state: DirectoryState::Stale, revision: rev });
    } else if incoming == DirectoryState::Unavailable || incoming == DirectoryState::Stale {
        assert(effects[1] == Effect::PublishSnapshot { state: DirectoryState::Unavailable, revision: rev });
    }
}

/// What forwarding a provider snapshot asks for: the breaker memberships are replaced
/// with the snapshot first; exactly one publication goes out, carrying the instances,
/// in the new state and revision, and no state-only publication; the new state is shown
/// and recorded; a `Stale` forward starts the grace period unless it already runs, and
/// any other forward drops it.
pub proof fn lemma_snapshot_effects(v: ForwarderView, incoming: DirectoryState)
    requires
        forwarder_wf(v),
        v.revision < u64::MAX,
        incoming == DirectoryState::Ready || incoming == DirectoryState::Stale || incoming == DirectoryState::Unavailable,
    ensures
        ({
            let (next, effects) = update_snapshot_spec(v, incoming);
            let publication = Effect::PublishSnapshot { state: next.state, revision: next.revision };
            &&& effects[0] == Effect::ReplaceDiscovery
            &&& effects.contains(publication)
            &&& forall|i: int| 0 <= i < effects.len() && (#[trigger] effects[i]) is PublishSnapshot
                ==> effects[i] == publication
            &&& forall|i: int| 0 <= i < effects.len() ==> !((#[trigger] effects[i]) is PublishState)
            &&& effects.contains(Effect::SetSlot(next.slot))
            &&& next.state == DirectoryState::Stale ==> effects.contains(Effect::Record(DirectoryMetricState::Stale))
                && (!v.armed ==> effects.contains(Effect::ArmDeadline)) && !effects.contains(Effect::ClearDeadline)
            &&& next.state != DirectoryState::Stale ==> effects.contains(Effect::ClearDeadline)
                && !effects.contains(Effect::ArmDeadline)
            &&& next.state == DirectoryState::Ready ==> effects.contains(Effect::Record(DirectoryMetricState::Ready))
            &&& next.state == DirectoryState::Unavailable ==> effects.contains(
                Effect::Record(DirectoryMetricState::Unavailable))
        }),
{
    let (next, effects) = update_snapshot_spec(v, incoming);
    let rev = (v.revision + 1) as u64;
    if incoming == DirectoryState::Stale && v.state.spec_is_routable() {
        let p = Effect::PublishSnapshot { state: DirectoryState::Stale, revision: rev };
        if v.armed {
            assert(effects == seq![Effect::ReplaceDiscovery, p, Effect::SetSlot(SlotState::Stale),
                Effect::Record(DirectoryMetricState::Stale)]);
            assert(effects[2] == Effect::SetSlot(SlotState::Stale));
            assert(effects[3] == Effect::Record(DirectoryMetricState::Stale));
        } else {
            assert(effects == seq![Effect::ReplaceDiscovery, p, Effect::ArmDeadline, Effect::SetSlot(SlotState::Stale),
                Effect::Record(DirectoryMetricState::Stale)]);
            assert(effects[2] == Effect::ArmDeadline);
            assert(effects[3] == Effect::SetSlot(SlotState::Stale));
            assert(effects[4] == Effect::Record(DirectoryMetricState::Stale));
        }
        assert(effects[1] == p);
    } else {
        let (s, slot, m) = if incoming == DirectoryState::Ready {
            (DirectoryState::Ready, SlotState::Ready, DirectoryMetricState::Ready)
        } else {
            (DirectoryState::Unavailable, SlotState::Unavailable, DirectoryMetricState::Unavailable)
        };
        let p = Effect::PublishSnapshot { state: s, revision: rev };
        assert(effects == seq![Effect::ReplaceDiscovery, p, Effect::ClearDeadline, Effect::SetSlot(slot),
            Effect::Record(m)]);
        assert(effects[1] == p);
        assert(effects[2] == Effect::ClearDeadline);
        assert(effects[3] == Effect::SetSlot(slot));
        assert(effects[4] == Effect::Record(m));
    }
}

/// How a provider failure acts. A stale directory stays stale, shown as stale, with
/// nothing published. Otherwise the slot shows the failure and unavailability is
/// recorded; an initializing directory is published as unavailable (a new revision,
/// keeping no instances), and any other directory keeps its state and revision.
pub proof fn lemma_provider_failure(v: ForwarderView, error: RegistryError)
    requires
        forwarder_wf(v),
        v.revision < u64::MAX,
    ensures
        ({
            let (next, effects) = provider_failure_spec(v, error);
            &&& v.state == DirectoryState::Stale ==> next == with_slot(v, SlotState::Stale)
                && effects == seq![Effect::SetSlot(SlotState::Stale)]
            &&& v.state != DirectoryState::Stale ==> next.slot == SlotState::Failed(error)
                && effects.contains(Effect::SetSlot(SlotState::Failed(error)))
                && effects.contains(Effect::Record(DirectoryMetricState::Unavailable))
                && next.armed == v.armed
            &&& v.state == DirectoryState::Initializing ==> next.state == DirectoryState::Unavailable
                && next.revision == v.revision + 1 && effects.contains(Effect::PublishState {
                    state: DirectoryState::Unavailable,
                    revision: (v.revision + 1) as u64,
                })
            &&& v.state != DirectoryState::Initializing ==> next.state == v.state && next.revision == v.revision
                && forall|i: int| 0 <= i < effects.len() ==> !((#[trigger] effects[i]) is PublishState
                    || effects[i] is PublishSnapshot)
        }),
{
    let (next, effects) = provider_failure_spec(v, error);
    if v.state == DirectoryState::Initializing {
        assert(effects[0] == Effect::PublishState { state: DirectoryState::Unavailable, revision: (v.revision + 1) as u64 });
        assert(effects[1] == Effect::SetSlot(SlotState::Failed(error)));
        assert(effects[2] == Effect::Record(DirectoryMetricState::Unavailable));
    } else if v.state != DirectoryState::Stale {
        assert(effects[0] == Effect::SetSlot(SlotState::Failed(error)));
        assert(effects[1] == Effect::Record(DirectoryMetricState::Unavailable));
    }
}

/// How a disconnect and the end of the grace period act. Losing the provider stream
/// turns a ready directory stale (a new revision) and a stale one stays stale (no new
/// revision), both showing `Stale` with the grace period running, while an
/// initializing directory becomes unavailable. When the grace period ends, a stale
/// directory becomes unavailable and stops being routable; any other directory keeps
/// its state; the grace period is dropped either way.
pub proof fn lemma_disconnect_and_expiry(v: ForwarderView)
    requires
        forwarder_wf(v),
        v.revision < u64::MAX,
    ensures
        v.state == DirectoryState::Ready ==> ({
            let next = mark_disconnected_spec(v).0;
            next.state == DirectoryState::Stale && next.revision == v.revision + 1 && next.slot == SlotState::Stale
                && next.armed
        }),
        v.state == DirectoryState::Stale ==> ({
            let next = mark_disconnected_spec(v).0;
            next.state == DirectoryState::Stale && next.revision == v.revision && next.slot == SlotState::Stale
                && next.armed
        }),
        v.state == DirectoryState::Initializing ==> ({
            let next = mark_disconnected_spec(v).0;
            next.state == DirectoryState::Unavailable && next.revision == v.revision + 1
                && next.slot == SlotState::Unavailable
        }),
        v.state == DirectoryState::Stale ==> ({
            let next = expire_stale_spec(v).0;
            next.state == DirectoryState::Unavailable && !next.state.spec_is_routable()
                && next.revision == v.revision + 1 && !next.armed
        }),
        v.state != DirectoryState::Stale ==> ({
            let next = expire_stale_spec(v).0;
            next.state == v.state && next.revision == v.revision && next.slot == v.slot && !next.armed
        }),
{
}

/// A waiter keeps waiting only while the slot is initializing; a ready or stale slot
/// lets it through; a closed slot refuses it as closed; every other slot refuses it
/// as a discovery failure.
pub proof fn lemma_readiness(slot: SlotState)
    ensures
        readiness_spec(slot) is None <==> slot is Initializing,
        readiness_spec(slot) == Some(Ok::<(), (ClientErrorKind, Seq<char>, Option<Seq<char>>)>(()))
            <==> (slot is Ready || slot is Stale),
        slot is Closed ==> (readiness_spec(slot) matches Some(Err(parts)) && parts.0 == ClientErrorKind::Closed),
        (slot is Failed || slot is Quarantined || slot is Unavailable) ==> (readiness_spec(slot) matches Some(Err(parts))
            && parts.0 == ClientErrorKind::Discovery),
{
}

/// Combining close results succeeds exactly when every close succeeded, and a
/// failure is the earliest failed close's error.
pub proof fn lemma_first_failure(outcomes: Seq<Result<(), RegistryError>>)
    ensures
        first_failure(outcomes) is Ok <==> forall|i: int| 0 <= i < outcomes.len() ==> (#[trigger] outcomes[i]) is Ok,
        first_failure(outcomes) is Err ==> exists|k: int| 0 <= k < outcomes.len() && first_failure(outcomes) == outcomes[k]
            && forall|j: int| 0 <= j < k ==> (#[trigger] outcomes[j]) is Ok,
    decreases outcomes.len(),
{
    if outcomes.len() > 0 {
        let rest = outcomes.drop_first();
        lemma_first_failure(rest);
        if outcomes[0] is Err {
            assert(0 <= 0 < outcomes.len() && first_failure(outcomes) == outcomes[0]);
        } else {
            if forall|i: int| 0 <= i < outcomes.len() ==> (#[trigger] outcomes[i]) is Ok {
                assert forall|i: int| 0 <= i < rest.len() implies (#[trigger] rest[i]) is Ok by {
                    assert(rest[i] == outcomes[i + 1]);
                }
            }
            if forall|i: int| 0 <= i < rest.len() ==> (#[trigger] rest[i]) is Ok {
                assert forall|i: int| 0 <= i < outcomes.len() implies (#[trigger] outcomes[i]) is Ok by {
                    if i > 0 {
                        assert(outcomes[i] == rest[i - 1]);
                    }
                }
            }
            if first_failure(outcomes) is Err {
                let k = choose|k: int| 0 <= k < rest.len() && first_failure(rest) == rest[k]
                    && forall|j: int| 0 <= j < k ==> (#[trigger] rest[j]) is Ok;
                assert(outcomes[k + 1] == rest[k]);
                assert forall|j: int| 0 <= j < k + 1 implies (#[trigger] outcomes[j]) is Ok by {
                    if j > 0 {
                        assert(outcomes[j] == rest[j - 1]);
                    }
                }
            }
        }
    }
}

/// While reconnecting, the slot shows the directory's own state again.
pub proof fn lemma_retrying_mirrors_directory(v: ForwarderView)
    ensures
        retrying_spec(v).0.state == v.state,
        retrying_spec(v).0.revision == v.revision,
        retrying_spec(v).0.armed == v.armed,
        v.state == DirectoryState::Ready ==> retrying_spec(v).0.slot == SlotState::Ready,
        v.state == DirectoryState::Stale ==> retrying_spec(v).0.slot == SlotState::Stale,
        v.state == DirectoryState::Unavailable ==> retrying_spec(v).0.slot == SlotState::Unavailable,
        v.state == DirectoryState::Initializing ==> retrying_spec(v).0.slot == SlotState::Initializing,
{
}

} // verus!
