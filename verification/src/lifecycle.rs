//! Hardware-core lifecycle manager.
//!
//! Owns at most one active hardware core at a time.  A launch validates
//! the launch configuration against the set of paths that the caller
//! found on storage and either installs exactly one active core handle
//! or fails with a `LaunchFailure`, leaving no partial state.  While a
//! core is active the manager answers status snapshots, pulses reset
//! lines, applies pending storage-mount requests one at a time, toggles
//! the hardware's native on-screen display, and tears the core down.

use vstd::prelude::*;

verus! {

/// Status bits reported for a core that was just brought up: the "core
/// loaded and running" bit is set, so the snapshot is never empty while
/// a core is active.
pub const INITIAL_STATUS_BITS: u32 = 1;

/// Why a launch was refused.  The core remains un-launched in every
/// case.
#[derive(Clone, Copy, Debug, PartialEq, Eq, Structural)]
pub enum LaunchFailure {
    /// The hardware-image path of the configuration is not on storage.
    MissingCoreImage,
    /// The configured ROM/game path is not on storage.
    MissingRom,
    /// A declared file-slot path is not on storage.
    InvalidFileSlot { slot: usize },
}

/// The immutable set of parameters used to start a core: hardware image,
/// optional ROM, sparse file-slot paths, optional savestate, and the two
/// interaction flags.  Constructed once per launch request.
pub struct LaunchConfig {
    pub core_path: String,
    pub game_path: Option<String>,
    pub file_slots: Vec<Option<String>>,
    pub savestate: Option<String>,
    pub show_menu: bool,
    pub auto_loop: bool,
}

impl LaunchConfig {
    /// A configuration for one hardware image, with no ROM, no file
    /// slots, no savestate, and the interactive defaults (menu offered,
    /// session loop run within the launch call).
    pub fn rbf(core_path: String) -> (r: LaunchConfig)
        ensures
            r.core_path@ == core_path@,
            r.game_path is None,
            r.file_slots@ == Seq::<Option<String>>::empty(),
            r.savestate is None,
            r.show_menu,
            r.auto_loop,
    {
        LaunchConfig {
            core_path,
            game_path: None,
            file_slots: Vec::new(),
            savestate: None,
            show_menu: true,
            auto_loop: true,
        }
    }

    /// The same configuration with a ROM path attached.
    pub fn with_rom(self, game_path: String) -> (r: LaunchConfig)
        ensures
            r.core_path@ == self.core_path@,
            r.game_path == Some(game_path),
            r.file_slots@ == self.file_slots@,
            r.savestate == self.savestate,
            r.show_menu == self.show_menu,
            r.auto_loop == self.auto_loop,
    {
        LaunchConfig { game_path: Some(game_path), ..self }
    }

    /// Declares a file for one slot of the sparse slot table, growing
    /// the table with empty slots up to the index where needed.
    pub fn set_file_slot(&mut self, slot: usize, path: String)
        requires
            slot < usize::MAX,
        ensures
            final(self).core_path@ == old(self).core_path@,
            final(self).game_path == old(self).game_path,
            final(self).savestate == old(self).savestate,
            final(self).show_menu == old(self).show_menu,
            final(self).auto_loop == old(self).auto_loop,
            final(self).file_slots@.len() == if old(self).file_slots@.len() > slot + 1 {
                old(self).file_slots@.len() as int
            } else {
                slot + 1
            },
            final(self).file_slots@[slot as int] == Some(path),
            forall|i: int|
                0 <= i < final(self).file_slots@.len() && i != slot
                    ==> final(self).file_slots@[i] == if i < old(self).file_slots@.len() {
                    old(self).file_slots@[i]
                } else {
                    None::<String>
                },
    {
        while self.file_slots.len() <= slot
            invariant
                slot < usize::MAX,
                self.core_path@ == old(self).core_path@,
                self.game_path == old(self).game_path,
                self.savestate == old(self).savestate,
                self.show_menu == old(self).show_menu,
                self.auto_loop == old(self).auto_loop,
                self.file_slots@.len() >= old(self).file_slots@.len(),
                old(self).file_slots@.len() > slot ==> self.file_slots@.len() == old(
                    self,
                ).file_slots@.len(),
                old(self).file_slots@.len() <= slot ==> self.file_slots@.len() <= slot + 1,
                forall|i: int|
                    0 <= i < self.file_slots@.len() ==> self.file_slots@[i] == if i < old(
                        self,
                    ).file_slots@.len() {
                        old(self).file_slots@[i]
                    } else {
                        None::<String>
                    },
            decreases slot + 1 - self.file_slots@.len(),
        {
            self.file_slots.push(None);
        }
        self.file_slots[slot] = Some(path);
    }
}

/// Whether `path` is among the paths that the caller found on storage.
pub open spec fn path_present(present: Seq<String>, path: Seq<char>) -> bool {
    exists|i: int| 0 <= i < present.len() && present[i]@ == path
}

/// The lowest file-slot index at or after `i` whose declared path is not
/// on storage, if any.
pub open spec fn first_invalid_slot_from(
    slots: Seq<Option<String>>,
    present: Seq<String>,
    i: int,
) -> Option<int>
    decreases slots.len() - i,
{
    if i < 0 || i >= slots.len() {
        None
    } else if slots[i] is Some && !path_present(present, slots[i]->0@) {
        Some(i)
    } else {
        first_invalid_slot_from(slots, present, i + 1)
    }
}

/// The failure that a launch reports for the given hardware-image path,
/// optional ROM path and sparse file-slot table, when the caller found
/// exactly the paths in `present` on storage; `None` when the launch is
/// owed success.  The hardware image is checked first, then the ROM,
/// then the file slots in slot order.
pub open spec fn spec_launch_failure_for(
    core_path: Seq<char>,
    game_path: Option<String>,
    file_slots: Seq<Option<String>>,
    present: Seq<String>,
) -> Option<LaunchFailure> {
    if !path_present(present, core_path) {
        Some(LaunchFailure::MissingCoreImage)
    } else if game_path is Some && !path_present(present, game_path->0@) {
        Some(LaunchFailure::MissingRom)
    } else {
        match first_invalid_slot_from(file_slots, present, 0) {
            Some(i) => Some(LaunchFailure::InvalidFileSlot { slot: i as usize }),
            None => None,
        }
    }
}

/// The failure that a launch of `config` reports, or `None` when the
/// launch is owed success.
pub open spec fn spec_launch_failure(config: LaunchConfig, present: Seq<String>) -> Option<
    LaunchFailure,
> {
    spec_launch_failure_for(config.core_path@, config.game_path, config.file_slots@, present)
}

/// The one handle to a running hardware core.  `status` is the
/// hardware-reported bit vector, `reset_pulses` counts the reset pulses
/// sent, `pending_mounts` the storage-mount requests the core has raised
/// and the frontend has not applied yet, and `applied_mounts` those
/// already applied, oldest first.
pub struct ActiveCoreHandle {
    pub status: u32,
    pub reset_pulses: u64,
    pub pending_mounts: Vec<u64>,
    pub applied_mounts: Vec<u64>,
}

impl ActiveCoreHandle {
    /// Read-only snapshot of the hardware-reported state.
    pub fn status_bits(&self) -> (r: u32)
        ensures
            r == self.status,
    {
        self.status
    }

    /// Asserts and releases one reset line.  Fire-and-forget: the status
    /// snapshot and the mount state are exactly as before the pulse.
    pub fn pulse_reset(&mut self, line: usize)
        requires
            line < 32,
            old(self).reset_pulses < u64::MAX,
        ensures
            final(self).status == old(self).status,
            final(self).reset_pulses == old(self).reset_pulses + 1,
            final(self).pending_mounts@ == old(self).pending_mounts@,
            final(self).applied_mounts@ == old(self).applied_mounts@,
    {
        self.reset_pulses = self.reset_pulses + 1;
    }

    /// Records a storage-mount request raised by the running core, to be
    /// applied by a later `poll_mounts`.
    pub fn mount_requested(&mut self, request: u64)
        ensures
            final(self).status == old(self).status,
            final(self).reset_pulses == old(self).reset_pulses,
            final(self).pending_mounts@ == old(self).pending_mounts@.push(request),
            final(self).applied_mounts@ == old(self).applied_mounts@,
    {
        self.pending_mounts.push(request);
    }

    /// Applies the oldest pending storage-mount request, if any, and
    /// reports whether anything changed.  Callers poll repeatedly until
    /// no further change is reported; once that happens, polling again
    /// without a new request changes nothing and reports no change.
    pub fn poll_mounts(&mut self) -> (changed: bool)
        ensures
            changed == (old(self).pending_mounts@.len() > 0),
            final(self).status == old(self).status,
            final(self).reset_pulses == old(self).reset_pulses,
            final(self).pending_mounts@ == spec_poll_rest(old(self).pending_mounts@),
            final(self).applied_mounts@ == if old(self).pending_mounts@.len() > 0 {
                old(self).applied_mounts@.push(old(self).pending_mounts@[0])
            } else {
                old(self).applied_mounts@
            },
    {
        if self.pending_mounts.len() > 0 {
            let request = self.pending_mounts.remove(0);
            self.applied_mounts.push(request);
            true
        } else {
            false
        }
    }

    /// Applies pending storage-mount requests until none is left, as the
    /// supervisor does on each menu entry so that save-file state is
    /// flushed before any settings mutation.
    pub fn drain_mounts(&mut self)
        ensures
            final(self).status == old(self).status,
            final(self).reset_pulses == old(self).reset_pulses,
            final(self).pending_mounts@ == Seq::<u64>::empty(),
            final(self).applied_mounts@ == old(self).applied_mounts@ + old(self).pending_mounts@,
    {
        while self.pending_mounts.len() > 0
            invariant
                self.status == old(self).status,
                self.reset_pulses == old(self).reset_pulses,
                self.applied_mounts@ + self.pending_mounts@ == old(self).applied_mounts@ + old(
                    self,
                ).pending_mounts@,
            decreases self.pending_mounts@.len(),
        {
            let _changed = self.poll_mounts();
        }
        proof {
            assert(self.applied_mounts@ =~= old(self).applied_mounts@ + old(self).pending_mounts@);
            assert(self.pending_mounts@ =~= Seq::<u64>::empty());
        }
    }
}

/// The pending queue after one poll: the oldest request is gone, or the
/// queue was already empty and stays so.
pub open spec fn spec_poll_rest(pending: Seq<u64>) -> Seq<u64> {
    if pending.len() > 0 {
        pending.drop_first()
    } else {
        pending
    }
}

/// Law: mount polling is idempotent at its fixpoint.  Once the pending
/// queue reports no change, a further poll with no new request in
/// between reports no change either and leaves the queue as it is.
pub proof fn lemma_poll_mounts_fixpoint(pending: Seq<u64>)
    requires
        pending.len() == 0,
    ensures
        spec_poll_rest(pending) == pending,
        spec_poll_rest(pending).len() == 0,
{
}

/// The hardware-core lifecycle manager.  At most one active core handle
/// exists process-wide; it lives here while active.
pub struct CoreManager {
    active: Option<ActiveCoreHandle>,
    osd_visible: bool,
}

impl CoreManager {
    /// The active core handle, if a core is running.
    pub closed spec fn spec_active(self) -> Option<ActiveCoreHandle> {
        self.active
    }

    /// Whether the hardware renders its native on-screen display.
    pub closed spec fn spec_osd_visible(self) -> bool {
        self.osd_visible
    }

    /// A manager with no active core and the hardware's native overlay
    /// hidden.
    pub fn new() -> (r: CoreManager)
        ensures
            r.spec_active() is None,
            !r.spec_osd_visible(),
    {
        CoreManager { active: None, osd_visible: false }
    }

    /// Whether a core is active.
    pub fn has_active_core(&self) -> (r: bool)
        ensures
            r == (self.spec_active() is Some),
    {
        self.active.is_some()
    }

    /// Launches a core from `config`.  `present` is the set of paths the
    /// caller found on storage; the launch succeeds if and only if the
    /// hardware image, the ROM (when configured) and every declared
    /// file-slot path are among them.  On success exactly one active
    /// core handle exists, freshly initialised; on failure the manager
    /// is exactly as it was, with no core launched.  A previously active
    /// core must have been torn down first: the manager never implicitly
    /// replaces a running core.
    pub fn launch(&mut self, config: LaunchConfig, present: &Vec<String>) -> (r: Result<
        (),
        LaunchFailure,
    >)
        requires
            old(self).spec_active() is None,
        ensures
            final(self).spec_osd_visible() == old(self).spec_osd_visible(),
            match spec_launch_failure(config, present@) {
                Some(failure) => {
                    &&& r == Err::<(), LaunchFailure>(failure)
                    &&& *final(self) == *old(self)
                },
                None => {
                    &&& r == Ok::<(), LaunchFailure>(())
                    &&& final(self).spec_active() is Some
                    &&& final(self).spec_active()->0.status == INITIAL_STATUS_BITS
                    &&& final(self).spec_active()->0.reset_pulses == 0
                    &&& final(self).spec_active()->0.pending_mounts@ == Seq::<u64>::empty()
                    &&& final(self).spec_active()->0.applied_mounts@ == Seq::<u64>::empty()
                },
            },
    {
        if !contains_path(present, &config.core_path) {
            return Err(LaunchFailure::MissingCoreImage);
        }
        match &config.game_path {
            Some(game) => {
                if !contains_path(present, game) {
                    return Err(LaunchFailure::MissingRom);
                }
            },
            None => {},
        }
        let mut i: usize = 0;
        while i < config.file_slots.len()
            invariant
                old(self).spec_active() is None,
                self == old(self),
                path_present(present@, config.core_path@),
                config.game_path is Some ==> path_present(present@, config.game_path->0@),
                first_invalid_slot_from(config.file_slots@, present@, 0)
                    == first_invalid_slot_from(config.file_slots@, present@, i as int),
                i <= config.file_slots@.len(),
            decreases config.file_slots@.len() - i,
        {
            match &config.file_slots[i] {
                Some(path) => {
                    if !contains_path(present, path) {
                        proof {
                            assert(first_invalid_slot_from(config.file_slots@, present@, i as int)
                                == Some(i as int));
                        }
                        return Err(LaunchFailure::InvalidFileSlot { slot: i });
                    }
                },
                None => {},
            }
            proof {
                assert(first_invalid_slot_from(config.file_slots@, present@, i as int)
                    == first_invalid_slot_from(config.file_slots@, present@, i + 1));
            }
            i = i + 1;
        }
        proof {
            assert(first_invalid_slot_from(config.file_slots@, present@, i as int) is None);
        }
        self.active = Some(
            ActiveCoreHandle {
                status: INITIAL_STATUS_BITS,
                reset_pulses: 0,
                pending_mounts: Vec::new(),
                applied_mounts: Vec::new(),
            },
        );
        Ok(())
    }

    /// Borrows the active core handle for status reads, reset pulses and
    /// mount polling.
    pub fn core_mut(&mut self) -> (core: &mut ActiveCoreHandle)
        requires
            old(self).spec_active() is Some,
        ensures
            *core == old(self).spec_active()->0,
            final(self).spec_active() == Some(*final(core)),
            final(self).spec_osd_visible() == old(self).spec_osd_visible(),
    {
        match &mut self.active {
            Some(core) => core,
            None => unreached(),
        }
    }

    /// Read-only snapshot of the active core's hardware-reported state.
    pub fn status_bits(&self) -> (r: u32)
        requires
            self.spec_active() is Some,
        ensures
            r == self.spec_active()->0.status,
    {
        match &self.active {
            Some(core) => core.status_bits(),
            None => unreached(),
        }
    }

    /// Whether the hardware renders its native on-screen display.
    pub fn osd_visible(&self) -> (r: bool)
        ensures
            r == self.spec_osd_visible(),
    {
        self.osd_visible
    }

    /// Asks the hardware to render its native on-screen display.
    pub fn show_menu(&mut self)
        ensures
            final(self).spec_active() == old(self).spec_active(),
            final(self).spec_osd_visible(),
    {
        self.osd_visible = true;
    }

    /// Asks the hardware to stop rendering its native on-screen display.
    pub fn hide_menu(&mut self)
        ensures
            final(self).spec_active() == old(self).spec_active(),
            !final(self).spec_osd_visible(),
    {
        self.osd_visible = false;
    }

    /// Releases the active core handle.  Always succeeds from the
    /// frontend's perspective: afterwards no core is active and the
    /// top-level menu can be reloaded.
    pub fn teardown(&mut self)
        ensures
            final(self).spec_active() is None,
            final(self).spec_osd_visible() == old(self).spec_osd_visible(),
    {
        self.active = None;
    }
}

/// Whether one of the paths found on storage equals `path`.
fn contains_path(present: &Vec<String>, path: &String) -> (r: bool)
    ensures
        r == path_present(present@, path@),
{
    let mut i: usize = 0;
    while i < present.len()
        invariant
            i <= present@.len(),
            forall|j: int| 0 <= j < i ==> present@[j]@ != path@,
        decreases present@.len() - i,
    {
        let entry: &String = &present[i];
        if *entry == *path {
            proof {
                assert(present@[i as int]@ == path@);
            }
            return true;
        }
        i = i + 1;
    }
    false
}

/// Law: a launch whose hardware-image path is not on storage never
/// produces an active core handle; it reports the missing image and the
/// manager still holds no core.
pub proof fn lemma_launch_missing_core_fails(config: LaunchConfig, present: Seq<String>)
    requires
        !path_present(present, config.core_path@),
    ensures
        spec_launch_failure(config, present) == Some(LaunchFailure::MissingCoreImage),
{
}

} // verus!
