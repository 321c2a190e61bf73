//! The focus-mode controller: the state machine composing topology applies
//! and icon-visibility writes into enter, exit, toggle and sleep-displays
//! operations.
//!
//! The controller owns the single bit of persistent state — whether focus
//! mode is active — and exposes it only through its operations. Each
//! operation decides a short, ordered plan of OS actions; the embedding
//! process performs them one after the other and surfaces the first error
//! as it is. No compensation is attempted on partial failure: a failed
//! plan deliberately leaves the OS in the partially-applied state, to be
//! retried, and the state cell records the transition begun rather than
//! its success — exactly the behaviour of one atomic exchange followed by
//! best-effort OS calls.

use vstd::prelude::*;

use crate::qdc::TopologyClass;
use crate::sdc::Sdc;
use crate::sdc::SdcAction;
use crate::sdc::SdcConfig;
use crate::sdc::SdcDatabaseTopologies;
use crate::sdc::SDC_APPLY;
use crate::sdc::SDC_TOPOLOGY_EXTEND;
use crate::sdc::SDC_TOPOLOGY_EXTERNAL;
use crate::sdc::spec_bit;

verus! {

// Parameters of the OS broadcast that powers the monitors off: the
// broadcast window handle, the system-command message, the monitor-power
// command, and the parameter value meaning "off".
pub const HWND_BROADCAST: usize = 0xFFFF;
pub const WM_SYSCOMMAND: u32 = 0x0112;
pub const SC_MONITORPOWER: usize = 0xF170;
pub const MONITOR_POWER_OFF: isize = 2;

/// Whether focus mode is currently active.
#[derive(Clone, Copy, Debug, PartialEq, Eq, Structural)]
pub enum FocusState {
    Normal,
    Focused,
}

/// Which transition a toggle performs.
#[derive(Clone, Copy, Debug, PartialEq, Eq, Structural)]
pub enum Transition {
    Enter,
    Exit,
}

/// One OS action of a transition plan.
#[derive(Clone, Debug)]
pub enum OsOp {
    /// Set or clear the desktop-icon visibility (see [`crate::icons`]).
    SetIconsHidden { hidden: bool },
    /// Apply the given display configuration (see [`crate::sdc`]).
    ApplyConfig { request: Sdc },
}

/// The database apply request of a transition: apply, with optimization
/// permitted, whatever configuration the database stores for the one
/// selected topology class. Focus mode selects the external-only class and
/// normal mode the extended class — the stored configurations this
/// controller switches between.
pub open spec fn spec_sdc_config(focus_mode: bool) -> Sdc {
    Sdc {
        action: SdcAction::Apply { no_optimization: false },
        config: SdcConfig::Database {
            topologies: SdcDatabaseTopologies {
                internal: false,
                clone: false,
                extend: !focus_mode,
                external: focus_mode,
            },
            path_persist_if_required: false,
        },
        allow_changes: false,
    }
}

/// Builds the database apply request of a transition.
pub fn sdc_config(focus_mode: bool) -> (r: Sdc)
    ensures
        r == spec_sdc_config(focus_mode),
{
    Sdc {
        action: SdcAction::Apply { no_optimization: false },
        config: SdcConfig::Database {
            topologies: SdcDatabaseTopologies {
                internal: false,
                clone: false,
                extend: !focus_mode,
                external: focus_mode,
            },
            path_persist_if_required: false,
        },
        allow_changes: false,
    }
}

/// Law (transition request encoding): the request of either transition is
/// valid and encodes to exactly the apply bit plus the single topology bit
/// of the selected class.
pub proof fn lemma_sdc_config_flags(focus_mode: bool)
    ensures
        spec_sdc_config(focus_mode).valid(),
        spec_sdc_config(focus_mode).spec_flags() == if focus_mode {
            SDC_APPLY | SDC_TOPOLOGY_EXTERNAL
        } else {
            SDC_APPLY | SDC_TOPOLOGY_EXTEND
        },
{
    assert((SDC_APPLY | spec_bit(false, 0x100u32)) | (spec_bit(false, 0x1u32) | spec_bit(
        false,
        0x2u32,
    ) | spec_bit(!focus_mode, 0x4u32) | spec_bit(focus_mode, 0x8u32) | spec_bit(false, 0x800u32))
        | spec_bit(false, 0x400u32) == (if focus_mode {
        SDC_APPLY | SDC_TOPOLOGY_EXTERNAL
    } else {
        SDC_APPLY | SDC_TOPOLOGY_EXTEND
    })) by (bit_vector);
}

/// The ordered plan of a transition.
///
/// Entering hides the icons before reducing the monitor set; leaving
/// restores the monitor set before showing the icons. The asymmetry is
/// deliberate policy, not accident: it minimizes the window in which
/// visible icons stand against an already-reduced monitor set, avoiding a
/// visible flash.
pub open spec fn spec_transition_ops(t: Transition) -> (OsOp, OsOp) {
    match t {
        Transition::Enter => (
            OsOp::SetIconsHidden { hidden: true },
            OsOp::ApplyConfig { request: spec_sdc_config(true) },
        ),
        Transition::Exit => (
            OsOp::ApplyConfig { request: spec_sdc_config(false) },
            OsOp::SetIconsHidden { hidden: false },
        ),
    }
}

/// Builds the ordered plan of a transition.
pub fn transition_ops(t: Transition) -> (ops: (OsOp, OsOp))
    ensures
        ops == spec_transition_ops(t),
{
    match t {
        Transition::Enter => (
            OsOp::SetIconsHidden { hidden: true },
            OsOp::ApplyConfig { request: sdc_config(true) },
        ),
        Transition::Exit => (
            OsOp::ApplyConfig { request: sdc_config(false) },
            OsOp::SetIconsHidden { hidden: false },
        ),
    }
}

/// What one toggle does from a given state: the transition it begins and
/// the state it records.
pub open spec fn spec_toggle(s: FocusState) -> (Transition, FocusState) {
    match s {
        FocusState::Normal => (Transition::Enter, FocusState::Focused),
        FocusState::Focused => (Transition::Exit, FocusState::Normal),
    }
}

/// The state seeded at startup from the current database topology: the
/// internal-only arrangement means focus mode is already in effect.
pub open spec fn spec_initial_state(topology: Option<TopologyClass>) -> FocusState {
    if topology == Some(TopologyClass::Internal) {
        FocusState::Focused
    } else {
        FocusState::Normal
    }
}

/// The focus-mode state machine. The one cell of persistent state is
/// private: collaborators reach it only through the operations below, which
/// keeps the single-writer discipline without a process-wide global.
#[derive(Clone, Copy, Debug)]
pub struct Controller {
    state: FocusState,
}

impl Controller {
    /// The current state.
    pub closed spec fn spec_state(self) -> FocusState {
        self.state
    }

    /// Seeds the controller from the topology reported at startup, before
    /// any user interaction.
    pub fn startup(topology: Option<TopologyClass>) -> (c: Controller)
        ensures
            c.spec_state() == spec_initial_state(topology),
    {
        match topology {
            Some(TopologyClass::Internal) => Controller { state: FocusState::Focused },
            _ => Controller { state: FocusState::Normal },
        }
    }

    /// Whether focus mode is currently active.
    pub fn is_focused(&self) -> (r: bool)
        ensures
            r == (self.spec_state() is Focused),
    {
        match self.state {
            FocusState::Focused => true,
            FocusState::Normal => false,
        }
    }

    /// Begins the enter transition: records focus mode as active and hands
    /// back the plan — hide the icons, then apply the focus configuration.
    pub fn enter(&mut self) -> (ops: (OsOp, OsOp))
        requires
            old(self).spec_state() is Normal,
        ensures
            final(self).spec_state() is Focused,
            ops == spec_transition_ops(Transition::Enter),
    {
        self.state = FocusState::Focused;
        transition_ops(Transition::Enter)
    }

    /// Begins the exit transition: records focus mode as inactive and hands
    /// back the plan — apply the normal configuration, then show the icons.
    pub fn exit(&mut self) -> (ops: (OsOp, OsOp))
        requires
            old(self).spec_state() is Focused,
        ensures
            final(self).spec_state() is Normal,
            ops == spec_transition_ops(Transition::Exit),
    {
        self.state = FocusState::Normal;
        transition_ops(Transition::Exit)
    }

    /// One toggle: reads and flips the state in a single exchange and
    /// begins the matching transition. Exclusive access to the controller
    /// serializes racing invocations, so each observes the state the
    /// previous one recorded.
    pub fn toggle(&mut self) -> (t: Transition)
        ensures
            t == spec_toggle(old(self).spec_state()).0,
            final(self).spec_state() == spec_toggle(old(self).spec_state()).1,
    {
        match self.state {
            FocusState::Normal => {
                self.state = FocusState::Focused;
                Transition::Enter
            },
            FocusState::Focused => {
                self.state = FocusState::Normal;
                Transition::Exit
            },
        }
    }

    /// The sleep-displays plan, from either state: the plan does not read
    /// the focus state and the state is untouched.
    pub fn sleep_displays(&self, delay_secs: u64) -> (p: SleepPlan)
        ensures
            p == spec_sleep_plan(delay_secs),
    {
        sleep_displays_plan(delay_secs)
    }
}

/// Law (toggle race): racing toggles are serialized by the atomic exchange
/// into consecutive toggles. From `Normal`, the first observes `Normal`,
/// begins the only enter sequence, and records `Focused` — the state after
/// the winner alone. A second toggle observes `Focused` and becomes the
/// paired exit; the OS never sees two enter sequences.
pub proof fn lemma_toggle_pair_single_enter()
    ensures
        spec_toggle(FocusState::Normal).0 == Transition::Enter,
        spec_toggle(FocusState::Normal).1 == FocusState::Focused,
        spec_toggle(spec_toggle(FocusState::Normal).1).0 == Transition::Exit,
        spec_toggle(spec_toggle(FocusState::Normal).1).1 == FocusState::Normal,
{
}

/// Law (toggle involution): two consecutive toggles return to the starting
/// state, whatever it was — the paired transitions cancel.
pub proof fn lemma_toggle_involution(s: FocusState)
    ensures
        spec_toggle(spec_toggle(s).1).1 == s,
        spec_toggle(s).0 != spec_toggle(spec_toggle(s).1).0,
{
}

/// The fire-and-forget broadcast asking the whole desktop to power the
/// monitors off.
#[derive(Clone, Copy, Debug, PartialEq, Eq, Structural)]
pub struct BroadcastMessage {
    pub hwnd: usize,
    pub message: u32,
    pub wparam: usize,
    pub lparam: isize,
}

/// The monitor-power-off broadcast.
pub open spec fn spec_monitor_off_message() -> BroadcastMessage {
    BroadcastMessage {
        hwnd: HWND_BROADCAST,
        message: WM_SYSCOMMAND,
        wparam: SC_MONITORPOWER,
        lparam: MONITOR_POWER_OFF,
    }
}

/// What sleep-displays does: wait the given delay, then send the
/// monitor-power-off broadcast. The delay is the only input; the focus
/// state plays no part and no state changes.
#[derive(Clone, Copy, Debug, PartialEq, Eq, Structural)]
pub struct SleepPlan {
    pub delay_secs: u64,
    pub message: BroadcastMessage,
}

/// The sleep-displays plan for a delay.
pub open spec fn spec_sleep_plan(delay_secs: u64) -> SleepPlan {
    SleepPlan { delay_secs, message: spec_monitor_off_message() }
}

/// Builds the sleep-displays plan: the requested delay, then the
/// monitor-power-off broadcast, identical whatever the focus state.
pub fn sleep_displays_plan(delay_secs: u64) -> (p: SleepPlan)
    ensures
        p == spec_sleep_plan(delay_secs),
{
    SleepPlan {
        delay_secs,
        message: BroadcastMessage {
            hwnd: HWND_BROADCAST,
            message: WM_SYSCOMMAND,
            wparam: SC_MONITORPOWER,
            lparam: MONITOR_POWER_OFF,
        },
    }
}

} // verus!
