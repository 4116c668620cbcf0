//! Core execution supervisor.
//!
//! A state machine over a running core with the states `Running`,
//! `MenuOverlay` and `Exiting`.  The supervisor enters the menu overlay
//! on request, applies every pending storage-mount request on each menu
//! entry (so save-file state is flushed before any settings mutation),
//! dispatches menu selections, and finally returns a disposition to its
//! caller: quit to the top-level menu, or return to the caller that was
//! running the core.  Hardware-communication faults are non-fatal: they
//! are logged by the caller and the session continues.

use vstd::prelude::*;

use crate::lifecycle::CoreManager;

verus! {

/// One selectable entry of the core menu overlay.  `CoreSettings`
/// carries the outcome of the interactive settings sub-menu: whether a
/// changed setting requires the core to be restarted.  `Unselectable` is
/// a separator or caption row that the menu never returns.
#[derive(Clone, Copy, Debug, PartialEq, Eq, Structural)]
pub enum CoreMenuAction {
    Reset,
    CoreSettings { restart_needed: bool },
    InputMapping,
    DebugMenu,
    Back,
    Quit,
    Unselectable,
}

impl CoreMenuAction {
    /// Whether the menu may land on this entry at all.
    pub fn is_selectable(&self) -> (r: bool)
        ensures
            r == (*self != CoreMenuAction::Unselectable),
    {
        match self {
            CoreMenuAction::Unselectable => false,
            _ => true,
        }
    }

    /// The action that backing out of the menu produces.
    pub fn back() -> (r: Option<CoreMenuAction>)
        ensures
            r == Some(CoreMenuAction::Back),
    {
        Some(CoreMenuAction::Back)
    }
}

/// The states of a supervised core session.  `Exiting` carries the
/// disposition handed to the caller: `quit` means the top-level menu
/// should be reloaded, otherwise control returns to the caller that was
/// running the core.
#[derive(Clone, Copy, Debug, PartialEq, Eq, Structural)]
pub enum SessionState {
    Running,
    MenuOverlay,
    Exiting { quit: bool },
}

/// One event driving the session state machine.  `MenuRequested` is the
/// user or script asking for the overlay, `MenuSelect` a selection made
/// while the overlay is open, `CoreFatalError` the core signalling an
/// unrecoverable error, and `HardwareFault` a failed reset pulse or
/// mount poll, which is logged and never unwinds the session.
#[derive(Clone, Copy, Debug, PartialEq, Eq, Structural)]
pub enum SessionEvent {
    MenuRequested,
    MenuSelect(CoreMenuAction),
    CoreFatalError,
    HardwareFault,
}

/// Whether a menu selection may be handed to the supervisor: the menu
/// never returns a separator, and input mapping is not offered yet.
pub open spec fn valid_menu_action(a: CoreMenuAction) -> bool {
    a != CoreMenuAction::Unselectable && a != CoreMenuAction::InputMapping
}

/// Whether every menu selection among `events` is one the menu can
/// produce.
pub open spec fn valid_session_events(events: Seq<SessionEvent>) -> bool {
    forall|i: int|
        0 <= i < events.len() && events[i] is MenuSelect ==> valid_menu_action(events[i]->0)
}

/// The session transition relation.  From `Running`, a menu request
/// opens the overlay, a fatal core error exits with the quit
/// disposition, and everything else keeps the core running.  From
/// `MenuOverlay`: reset returns to the running core after a reset
/// pulse; a settings change that requires a restart exits back to the
/// caller; backing out returns to the running core; quit exits to the
/// top-level menu; a fatal core error exits; any other selection keeps
/// the overlay open.  `Exiting` is terminal.
pub open spec fn spec_step(state: SessionState, event: SessionEvent) -> SessionState {
    match state {
        SessionState::Running => match event {
            SessionEvent::MenuRequested => SessionState::MenuOverlay,
            SessionEvent::CoreFatalError => SessionState::Exiting { quit: true },
            _ => SessionState::Running,
        },
        SessionState::MenuOverlay => match event {
            SessionEvent::CoreFatalError => SessionState::Exiting { quit: true },
            SessionEvent::MenuSelect(a) => match a {
                CoreMenuAction::Reset => SessionState::Running,
                CoreMenuAction::CoreSettings { restart_needed } => if restart_needed {
                    SessionState::Exiting { quit: false }
                } else {
                    SessionState::MenuOverlay
                },
                CoreMenuAction::Back => SessionState::Running,
                CoreMenuAction::Quit => SessionState::Exiting { quit: true },
                _ => SessionState::MenuOverlay,
            },
            _ => SessionState::MenuOverlay,
        },
        SessionState::Exiting { quit } => SessionState::Exiting { quit },
    }
}

/// One step of the session state machine.
pub fn step(state: SessionState, event: SessionEvent) -> (r: SessionState)
    ensures
        r == spec_step(state, event),
{
    match state {
        SessionState::Running => match event {
            SessionEvent::MenuRequested => SessionState::MenuOverlay,
            SessionEvent::CoreFatalError => SessionState::Exiting { quit: true },
            _ => SessionState::Running,
        },
        SessionState::MenuOverlay => match event {
            SessionEvent::CoreFatalError => SessionState::Exiting { quit: true },
            SessionEvent::MenuSelect(a) => match a {
                CoreMenuAction::Reset => SessionState::Running,
                CoreMenuAction::CoreSettings { restart_needed } => if restart_needed {
                    SessionState::Exiting { quit: false }
                } else {
                    SessionState::MenuOverlay
                },
                CoreMenuAction::Back => SessionState::Running,
                CoreMenuAction::Quit => SessionState::Exiting { quit: true },
                _ => SessionState::MenuOverlay,
            },
            _ => SessionState::MenuOverlay,
        },
        SessionState::Exiting { quit } => SessionState::Exiting { quit },
    }
}

/// Everything a session leaves behind on the core handle: the final
/// machine state, the reset pulses sent, and the mount queues.
pub struct SessionTrace {
    pub state: SessionState,
    pub pulses: int,
    pub pending: Seq<u64>,
    pub applied: Seq<u64>,
}

/// Folds the session state machine over a queue of events, tracking its
/// effects on the core handle: entering the overlay from `Running`
/// drains the pending mount queue into the applied one, and a reset
/// selection sends one reset pulse.  The fold stops at the terminal
/// state even when events remain.
pub open spec fn spec_session_trace(
    state: SessionState,
    events: Seq<SessionEvent>,
    pulses: int,
    pending: Seq<u64>,
    applied: Seq<u64>,
) -> SessionTrace
    decreases events.len(),
{
    if state is Exiting || events.len() == 0 {
        SessionTrace { state, pulses, pending, applied }
    } else {
        let event = events[0];
        let drains = state is Running && event is MenuRequested;
        let pulsed = state is MenuOverlay && event is MenuSelect && event->0 is Reset;
        spec_session_trace(
            spec_step(state, event),
            events.drop_first(),
            if pulsed {
                pulses + 1
            } else {
                pulses
            },
            if drains {
                Seq::empty()
            } else {
                pending
            },
            if drains {
                applied + pending
            } else {
                applied
            },
        )
    }
}

/// Runs the supervised session over a queue of events, from `Running`,
/// applying each step's effects to the active core: the overlay is
/// shown on the hardware exactly while the machine sits in
/// `MenuOverlay`, every pending mount is applied on each menu entry,
/// and a reset selection pulses the reset line.  Returns the
/// disposition when the session reaches `Exiting`, or `None` when the
/// events ran out with the session still live (the caller pumps further
/// frames).  The status snapshot is never changed by supervision.
pub fn run_core_loop(manager: &mut CoreManager, events: &Vec<SessionEvent>) -> (r: Option<bool>)
    requires
        old(manager).spec_active() is Some,
        !old(manager).spec_osd_visible(),
        valid_session_events(events@),
        old(manager).spec_active()->0.reset_pulses + events@.len() <= u64::MAX,
    ensures
        ({
            let core = old(manager).spec_active()->0;
            let trace = spec_session_trace(
                SessionState::Running,
                events@,
                core.reset_pulses as int,
                core.pending_mounts@,
                core.applied_mounts@,
            );
            let finished = final(manager).spec_active()->0;
            &&& final(manager).spec_active() is Some
            &&& finished.status == core.status
            &&& finished.reset_pulses == trace.pulses
            &&& finished.pending_mounts@ == trace.pending
            &&& finished.applied_mounts@ == trace.applied
            &&& final(manager).spec_osd_visible() == (trace.state is MenuOverlay)
            &&& r == match trace.state {
                SessionState::Exiting { quit } => Some(quit),
                _ => None::<bool>,
            }
        }),
{
    let ghost core0 = old(manager).spec_active()->0;
    let ghost whole = spec_session_trace(
        SessionState::Running,
        events@,
        core0.reset_pulses as int,
        core0.pending_mounts@,
        core0.applied_mounts@,
    );
    let mut state = SessionState::Running;
    let mut i: usize = 0;
    proof {
        assert(events@.skip(0) =~= events@);
    }
    while i < events.len() && !is_exiting(&state)
        invariant
            i <= events@.len(),
            valid_session_events(events@),
            manager.spec_active() is Some,
            manager.spec_active()->0.status == core0.status,
            manager.spec_active()->0.reset_pulses + (events@.len() - i) <= u64::MAX,
            manager.spec_osd_visible() == (state is MenuOverlay),
            whole == spec_session_trace(
                state,
                events@.skip(i as int),
                manager.spec_active()->0.reset_pulses as int,
                manager.spec_active()->0.pending_mounts@,
                manager.spec_active()->0.applied_mounts@,
            ),
        decreases events@.len() - i,
    {
        let event = events[i];
        let ghost pre_state = state;
        let ghost pre_core = manager.spec_active()->0;
        match (state, event) {
            (SessionState::Running, SessionEvent::MenuRequested) => {
                manager.show_menu();
                manager.core_mut().drain_mounts();
            },
            (SessionState::MenuOverlay, SessionEvent::MenuSelect(CoreMenuAction::Reset)) => {
                manager.core_mut().pulse_reset(0);
            },
            _ => {},
        }
        state = step(state, event);
        if !is_menu_overlay(&state) {
            manager.hide_menu();
        }
        proof {
            assert(events@.skip(i as int)[0] == event);
            assert(events@.skip(i as int).drop_first() =~= events@.skip(i as int + 1));
            assert(spec_session_trace(
                pre_state,
                events@.skip(i as int),
                pre_core.reset_pulses as int,
                pre_core.pending_mounts@,
                pre_core.applied_mounts@,
            ) == spec_session_trace(
                state,
                events@.skip(i as int + 1),
                manager.spec_active()->0.reset_pulses as int,
                manager.spec_active()->0.pending_mounts@,
                manager.spec_active()->0.applied_mounts@,
            ));
        }
        i = i + 1;
    }
    proof {
        assert(whole == SessionTrace {
            state,
            pulses: manager.spec_active()->0.reset_pulses as int,
            pending: manager.spec_active()->0.pending_mounts@,
            applied: manager.spec_active()->0.applied_mounts@,
        });
    }
    match state {
        SessionState::Exiting { quit } => Some(quit),
        _ => None,
    }
}

/// Whether this menu selection ends the menu panel: quitting the core,
/// backing out, or a settings change that requires a restart.
pub open spec fn is_menu_terminator(a: CoreMenuAction) -> bool {
    ||| a == CoreMenuAction::Quit
    ||| a == CoreMenuAction::Back
    ||| a == (CoreMenuAction::CoreSettings { restart_needed: true })
}

/// The first menu selection at or after `i` that ends the menu panel,
/// if any.
pub open spec fn first_terminator_from(actions: Seq<CoreMenuAction>, i: int) -> Option<int>
    decreases actions.len() - i,
{
    if i < 0 || i >= actions.len() {
        None
    } else if is_menu_terminator(actions[i]) {
        Some(i)
    } else {
        first_terminator_from(actions, i + 1)
    }
}

/// The number of reset selections among the first `i` menu selections.
pub open spec fn resets_until(actions: Seq<CoreMenuAction>, i: int) -> int
    decreases i,
{
    if i <= 0 {
        0
    } else {
        resets_until(actions, i - 1) + if actions[i - 1] == CoreMenuAction::Reset {
            1int
        } else {
            0int
        }
    }
}

/// Shows the core menu overlay and dispatches the user's successive
/// selections, which the interactive menu hands in.  On entry the
/// hardware overlay is shown and every pending storage-mount request is
/// applied, so save-file state is flushed before any settings mutation;
/// each reset selection pulses the reset line; the panel ends with the
/// first terminating selection and hides the overlay again.  Returns
/// `true` exactly when the user decided to quit the core, in which case
/// the caller reloads the top-level menu.
pub fn core_menu(manager: &mut CoreManager, actions: &Vec<CoreMenuAction>) -> (r: bool)
    requires
        old(manager).spec_active() is Some,
        forall|i: int| 0 <= i < actions@.len() ==> valid_menu_action(#[trigger] actions@[i]),
        first_terminator_from(actions@, 0) is Some,
        old(manager).spec_active()->0.reset_pulses + actions@.len() <= u64::MAX,
    ensures
        ({
            let core = old(manager).spec_active()->0;
            let finished = final(manager).spec_active()->0;
            let k = first_terminator_from(actions@, 0)->0;
            &&& r == (actions@[k] == CoreMenuAction::Quit)
            &&& final(manager).spec_active() is Some
            &&& finished.status == core.status
            &&& finished.reset_pulses == core.reset_pulses + resets_until(actions@, k)
            &&& finished.pending_mounts@ == Seq::<u64>::empty()
            &&& finished.applied_mounts@ == core.applied_mounts@ + core.pending_mounts@
            &&& !final(manager).spec_osd_visible()
        }),
{
    let ghost core0 = old(manager).spec_active()->0;
    manager.show_menu();
    manager.core_mut().drain_mounts();
    let mut i: usize = 0;
    while i < actions.len()
        invariant
            i <= actions@.len(),
            old(manager).spec_active() is Some,
            core0 == old(manager).spec_active()->0,
            forall|j: int| 0 <= j < actions@.len() ==> valid_menu_action(#[trigger] actions@[j]),
            first_terminator_from(actions@, 0) is Some,
            first_terminator_from(actions@, 0) == first_terminator_from(actions@, i as int),
            manager.spec_active() is Some,
            manager.spec_active()->0.status == core0.status,
            manager.spec_active()->0.reset_pulses == core0.reset_pulses + resets_until(
                actions@,
                i as int,
            ),
            core0.reset_pulses + actions@.len() <= u64::MAX,
            resets_until(actions@, i as int) <= i,
            0 <= resets_until(actions@, i as int),
            manager.spec_active()->0.pending_mounts@ == Seq::<u64>::empty(),
            manager.spec_active()->0.applied_mounts@ == core0.applied_mounts@
                + core0.pending_mounts@,
            manager.spec_osd_visible(),
        decreases actions@.len() - i,
    {
        let action = actions[i];
        proof {
            assert(first_terminator_from(actions@, i as int) == if is_menu_terminator(
                actions@[i as int],
            ) {
                Some(i as int)
            } else {
                first_terminator_from(actions@, i + 1)
            });
            assert(resets_until(actions@, i as int + 1) == resets_until(actions@, i as int)
                + if actions@[i as int] == CoreMenuAction::Reset {
                1int
            } else {
                0int
            });
        }
        match action {
            CoreMenuAction::Reset => {
                manager.core_mut().pulse_reset(0);
            },
            CoreMenuAction::CoreSettings { restart_needed } => {
                if restart_needed {
                    manager.hide_menu();
                    return false;
                }
            },
            CoreMenuAction::DebugMenu => {},
            CoreMenuAction::Back => {
                manager.hide_menu();
                return false;
            },
            CoreMenuAction::Quit => {
                manager.hide_menu();
                return true;
            },
            _ => {
                proof {
                    assert(valid_menu_action(actions@[i as int]));
                }
                return unreached();
            },
        }
        i = i + 1;
    }
    proof {
        assert(first_terminator_from(actions@, i as int) is None);
    }
    unreached()
}

/// Whether the session has reached its terminal state.
fn is_exiting(state: &SessionState) -> (r: bool)
    ensures
        r == (*state is Exiting),
{
    match state {
        SessionState::Exiting { .. } => true,
        _ => false,
    }
}

/// Whether the session is showing the menu overlay.
fn is_menu_overlay(state: &SessionState) -> (r: bool)
    ensures
        r == (*state is MenuOverlay),
{
    match state {
        SessionState::MenuOverlay => true,
        _ => false,
    }
}

} // verus!
