//! Bridge between the embedded script engine and the core lifecycle.
//!
//! The script engine hands the bridge plain values: the tagged core and
//! game references of its "run core" call, the optional sparse file
//! list and flags, and, while a call is in flight, the observed state
//! of the engine's promise after each cooperative job-queue drain.  The
//! bridge validates those values, translates them into a launch
//! configuration, drives the launch and the supervised session, and
//! decides after each drain whether to keep draining, finish, or
//! surface a script fault.

use vstd::prelude::*;

use crate::lifecycle::{
    spec_launch_failure_for, CoreManager, LaunchConfig, LaunchFailure, INITIAL_STATUS_BITS,
};
use crate::session::{
    run_core_loop, spec_session_trace, valid_session_events, SessionEvent, SessionState,
};

verus! {

/// A script-side error surfaced to the engine's rejection channel.  The
/// frontend loop is never unwound by one.
#[derive(Clone, Copy, Debug, PartialEq, Eq, Structural)]
pub enum ScriptFault {
    /// The core reference of a "run core" call carries an unknown tag.
    InvalidCoreType,
    /// The game reference of a "run core" call carries an unknown tag.
    InvalidGameType,
    /// The script's promise was rejected.
    Rejected,
}

/// The core reference of a "run core" call.
#[derive(Clone, Debug, PartialEq, Eq)]
pub enum CoreType {
    Path { path: String },
}

impl CoreType {
    /// Builds the core reference from the tag and path the script
    /// supplied.  Only the `"path"` tag names a core; everything else is
    /// a script fault.
    pub fn try_from_fields(kind: String, path: String) -> (r: Result<CoreType, ScriptFault>)
        ensures
            kind@ == "path"@ ==> r == Ok::<CoreType, ScriptFault>(CoreType::Path { path }),
            kind@ != "path"@ ==> r == Err::<CoreType, ScriptFault>(ScriptFault::InvalidCoreType),
    {
        let expected = String::from_str("path");
        if kind == expected {
            Ok(CoreType::Path { path })
        } else {
            Err(ScriptFault::InvalidCoreType)
        }
    }
}

/// The game reference of a "run core" call.
#[derive(Clone, Debug, PartialEq, Eq)]
pub enum GameType {
    RomPath { path: String },
}

impl GameType {
    /// Builds the game reference from the tag and path the script
    /// supplied.  Only the `"rom-path"` tag names a game; everything
    /// else is a script fault.
    pub fn try_from_fields(kind: String, path: String) -> (r: Result<GameType, ScriptFault>)
        ensures
            kind@ == "rom-path"@ ==> r == Ok::<GameType, ScriptFault>(GameType::RomPath { path }),
            kind@ != "rom-path"@ ==> r == Err::<GameType, ScriptFault>(
                ScriptFault::InvalidGameType,
            ),
    {
        let expected = String::from_str("rom-path");
        if kind == expected {
            Ok(GameType::RomPath { path })
        } else {
            Err(ScriptFault::InvalidGameType)
        }
    }
}

/// The structured options of one "run core" call, as the script wrote
/// them: absent fields keep their defaults (no game, no files, no
/// savestate, menu offered, session loop run within the call).
pub struct RunOptions {
    pub core: CoreType,
    pub game: Option<GameType>,
    pub files: Option<Vec<Option<String>>>,
    pub savestate: Option<String>,
    pub showmenu: Option<bool>,
    pub autoloop: Option<bool>,
}

/// The ROM path that a "run core" call configures, if any.
pub open spec fn spec_game_path(options: RunOptions) -> Option<String> {
    match options.game {
        Some(GameType::RomPath { path }) => Some(path),
        None => None,
    }
}

/// The sparse file-slot table that a "run core" call configures.
pub open spec fn spec_file_slots(options: RunOptions) -> Seq<Option<String>> {
    match options.files {
        Some(files) => files@,
        None => Seq::<Option<String>>::empty(),
    }
}

/// Whether the call offers the menu overlay; absent means yes.
pub open spec fn spec_show_menu(options: RunOptions) -> bool {
    match options.showmenu {
        Some(b) => b,
        None => true,
    }
}

/// Whether the call runs the session loop synchronously; absent means
/// yes.
pub open spec fn spec_auto_loop(options: RunOptions) -> bool {
    match options.autoloop {
        Some(b) => b,
        None => true,
    }
}

/// Translates a script's "run core" options into the immutable launch
/// configuration handed to the lifecycle manager.
pub fn launch_config_of(options: RunOptions) -> (r: LaunchConfig)
    ensures
        r.core_path == options.core->path,
        r.game_path == spec_game_path(options),
        r.file_slots@ == spec_file_slots(options),
        r.savestate == options.savestate,
        r.show_menu == spec_show_menu(options),
        r.auto_loop == spec_auto_loop(options),
{
    let RunOptions { core, game, files, savestate, showmenu, autoloop } = options;
    let core_path = match core {
        CoreType::Path { path } => path,
    };
    let game_path = match game {
        Some(GameType::RomPath { path }) => Some(path),
        None => None,
    };
    let file_slots = match files {
        Some(files) => files,
        None => Vec::new(),
    };
    let show_menu = match showmenu {
        Some(b) => b,
        None => true,
    };
    let auto_loop = match autoloop {
        Some(b) => b,
        None => true,
    };
    LaunchConfig { core_path, game_path, file_slots, savestate, show_menu, auto_loop }
}

/// Runs a core on behalf of the script: translates the options,
/// launches, and, when the call asked for it, drives the supervised
/// session over the given event queue synchronously within the call.
/// The launch succeeds if and only if every path the options name is
/// among `present`, the paths the caller found on storage; a refused
/// launch leaves the manager exactly as it was, to be surfaced on the
/// script's rejection channel.  Without `autoloop` the call returns as
/// soon as the core runs.
pub fn run_core(
    manager: &mut CoreManager,
    options: RunOptions,
    present: &Vec<String>,
    events: &Vec<SessionEvent>,
) -> (r: Result<Option<bool>, LaunchFailure>)
    requires
        old(manager).spec_active() is None,
        !old(manager).spec_osd_visible(),
        valid_session_events(events@),
        events@.len() <= u64::MAX,
    ensures
        ({
            let failure_check = spec_launch_failure_for(
                options.core->path@,
                spec_game_path(options),
                spec_file_slots(options),
                present@,
            );
            match failure_check {
                Some(failure) => {
                    &&& r == Err::<Option<bool>, LaunchFailure>(failure)
                    &&& *final(manager) == *old(manager)
                },
                None => {
                    &&& final(manager).spec_active() is Some
                    &&& final(manager).spec_active()->0.status == INITIAL_STATUS_BITS
                    &&& if spec_auto_loop(options) {
                        let trace = spec_session_trace(
                            SessionState::Running,
                            events@,
                            0,
                            Seq::empty(),
                            Seq::empty(),
                        );
                        &&& r == Ok::<Option<bool>, LaunchFailure>(
                            match trace.state {
                                SessionState::Exiting { quit } => Some(quit),
                                _ => None::<bool>,
                            },
                        )
                        &&& final(manager).spec_active()->0.reset_pulses == trace.pulses
                        &&& final(manager).spec_active()->0.pending_mounts@ == trace.pending
                        &&& final(manager).spec_active()->0.applied_mounts@ == trace.applied
                        &&& final(manager).spec_osd_visible() == (trace.state is MenuOverlay)
                    } else {
                        &&& r == Ok::<Option<bool>, LaunchFailure>(None)
                        &&& !final(manager).spec_osd_visible()
                    }
                },
            }
        }),
{
    let config = launch_config_of(options);
    let auto_loop = config.auto_loop;
    match manager.launch(config, present) {
        Ok(()) => {},
        Err(failure) => {
            return Err(failure);
        },
    }
    if auto_loop {
        let disposition = run_core_loop(manager, events);
        Ok(disposition)
    } else {
        Ok(None)
    }
}

/// The observed state of the script's promise after one cooperative
/// job-queue drain.
#[derive(Clone, Copy, Debug, PartialEq, Eq, Structural)]
pub enum PromiseState {
    Pending,
    Fulfilled,
    Rejected,
}

/// A script-originated action together with its eventual result,
/// resolved exactly once and observed by the engine's job queue.
pub struct ScriptTask {
    state: PromiseState,
}

impl ScriptTask {
    pub closed spec fn spec_state(self) -> PromiseState {
        self.state
    }

    /// A task whose result is not decided yet.
    pub fn new() -> (r: ScriptTask)
        ensures
            r.spec_state() == PromiseState::Pending,
    {
        ScriptTask { state: PromiseState::Pending }
    }

    /// The state the job queue observes.
    pub fn poll(&self) -> (r: PromiseState)
        ensures
            r == self.spec_state(),
    {
        self.state
    }

    /// Resolves the task.  A task is resolved exactly once: only a
    /// pending task can be resolved.
    pub fn resolve(&mut self)
        requires
            old(self).spec_state() == PromiseState::Pending,
        ensures
            final(self).spec_state() == PromiseState::Fulfilled,
    {
        self.state = PromiseState::Fulfilled;
    }

    /// Rejects the task.  Like `resolve`, only a pending task can be
    /// rejected.
    pub fn reject(&mut self)
        requires
            old(self).spec_state() == PromiseState::Pending,
        ensures
            final(self).spec_state() == PromiseState::Rejected,
    {
        self.state = PromiseState::Rejected;
    }
}

/// The first observation at or after `i` in which the promise is no
/// longer pending, if any.
pub open spec fn first_settled_from(observed: Seq<PromiseState>, i: int) -> Option<int>
    decreases observed.len() - i,
{
    if i < 0 || i >= observed.len() {
        None
    } else if observed[i] != PromiseState::Pending {
        Some(i)
    } else {
        first_settled_from(observed, i + 1)
    }
}

/// Drives the script's top-level promise to completion: after each
/// job-queue drain the promise is observed, pending observations keep
/// the loop draining, and the first settled observation decides the
/// call.  A fulfilled promise finishes the call; a rejected one is
/// surfaced as a script fault on the rejection channel.
pub fn drive_to_completion(observed: &Vec<PromiseState>) -> (r: Result<(), ScriptFault>)
    requires
        first_settled_from(observed@, 0) is Some,
    ensures
        ({
            let k = first_settled_from(observed@, 0)->0;
            r == if observed@[k] == PromiseState::Fulfilled {
                Ok::<(), ScriptFault>(())
            } else {
                Err::<(), ScriptFault>(ScriptFault::Rejected)
            }
        }),
{
    let mut i: usize = 0;
    while i < observed.len()
        invariant
            i <= observed@.len(),
            first_settled_from(observed@, 0) is Some,
            first_settled_from(observed@, 0) == first_settled_from(observed@, i as int),
        decreases observed@.len() - i,
    {
        proof {
            assert(first_settled_from(observed@, i as int) == if observed@[i as int]
                != PromiseState::Pending {
                Some(i as int)
            } else {
                first_settled_from(observed@, i + 1)
            });
        }
        match observed[i] {
            PromiseState::Pending => {},
            PromiseState::Fulfilled => {
                return Ok(());
            },
            PromiseState::Rejected => {
                return Err(ScriptFault::Rejected);
            },
        }
        i = i + 1;
    }
    proof {
        assert(first_settled_from(observed@, i as int) is None);
    }
    unreached()
}

} // verus!
