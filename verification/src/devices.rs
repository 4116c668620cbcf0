//! Hot-plug input-device registry.
//!
//! Two independent device classes (simple joysticks and mapped gamepads)
//! are tracked in fixed arrays of 32 slots each, indexed by the
//! platform-assigned raw device id.  A raw id outside the addressable
//! range is rejected rather than written out of bounds.  Adding over an
//! occupied slot replaces the handle and reports the prior one so that
//! the caller can release it; removing from an empty slot is a no-op
//! that reports a recoverable anomaly.

use vstd::prelude::*;

verus! {

/// Number of addressable hot-plug slots per device class.
pub const DEVICE_SLOT_COUNT: usize = 32;

/// The class of a hot-pluggable input device.
#[derive(Clone, Copy, Debug, PartialEq, Eq, Structural)]
pub enum DeviceKind {
    Joystick,
    Gamepad,
}

/// Fatal configuration violation: a raw device id that would alias a
/// slot outside the addressable range.
#[derive(Clone, Copy, Debug, PartialEq, Eq, Structural)]
pub enum DeviceError {
    SlotOutOfRange { raw_id: usize },
}

/// A slot table after a device was plugged into slot `id`.
pub open spec fn spec_added(slots: Seq<Option<u64>>, id: int, handle: u64) -> Seq<Option<u64>> {
    slots.update(id, Some(handle))
}

/// A slot table after the device in slot `id` was unplugged.
pub open spec fn spec_removed(slots: Seq<Option<u64>>, id: int) -> Seq<Option<u64>> {
    slots.update(id, None)
}

/// Registry of hot-plugged input devices, touched only from the single
/// frontend loop.  Each live device is recorded as the opaque platform
/// handle token under its raw id.
pub struct DeviceRegistry {
    joysticks: Vec<Option<u64>>,
    gamepads: Vec<Option<u64>>,
}

impl DeviceRegistry {
    /// Both slot tables always hold exactly one entry per addressable id.
    pub closed spec fn wf(self) -> bool {
        &&& self.joysticks@.len() == DEVICE_SLOT_COUNT
        &&& self.gamepads@.len() == DEVICE_SLOT_COUNT
    }

    /// The slot table of one device class.
    pub closed spec fn slots(self, kind: DeviceKind) -> Seq<Option<u64>> {
        match kind {
            DeviceKind::Joystick => self.joysticks@,
            DeviceKind::Gamepad => self.gamepads@,
        }
    }

    /// An empty registry: no device is live in either class.
    pub fn new() -> (r: DeviceRegistry)
        ensures
            r.wf(),
            forall|k: DeviceKind, i: int|
                0 <= i < DEVICE_SLOT_COUNT ==> r.slots(k)[i] is None,
    {
        let mut joysticks: Vec<Option<u64>> = Vec::new();
        let mut gamepads: Vec<Option<u64>> = Vec::new();
        let mut i: usize = 0;
        while i < DEVICE_SLOT_COUNT
            invariant
                i <= DEVICE_SLOT_COUNT,
                joysticks@.len() == i,
                gamepads@.len() == i,
                forall|j: int| 0 <= j < i ==> joysticks@[j] is None,
                forall|j: int| 0 <= j < i ==> gamepads@[j] is None,
            decreases DEVICE_SLOT_COUNT - i,
        {
            joysticks.push(None);
            gamepads.push(None);
            i = i + 1;
        }
        DeviceRegistry { joysticks, gamepads }
    }

    /// The current occupant of one slot.
    pub fn slot(&self, kind: DeviceKind, raw_id: usize) -> (r: Option<u64>)
        requires
            self.wf(),
            raw_id < DEVICE_SLOT_COUNT,
        ensures
            r == self.slots(kind)[raw_id as int],
    {
        match kind {
            DeviceKind::Joystick => self.joysticks[raw_id],
            DeviceKind::Gamepad => self.gamepads[raw_id],
        }
    }

    /// Records a hot-plug "added" event.  Rejects a raw id outside the
    /// addressable range; otherwise stores the handle and returns the
    /// replaced occupant, `Some(prior)` being the recoverable anomaly of
    /// an add over a still-populated slot (the caller releases the prior
    /// handle and logs a warning).
    pub fn on_device_added(&mut self, kind: DeviceKind, raw_id: usize, handle: u64) -> (r: Result<
        Option<u64>,
        DeviceError,
    >)
        requires
            old(self).wf(),
        ensures
            final(self).wf(),
            raw_id >= DEVICE_SLOT_COUNT ==> {
                &&& r == Err::<Option<u64>, DeviceError>(DeviceError::SlotOutOfRange { raw_id })
                &&& final(self).slots(DeviceKind::Joystick) == old(self).slots(DeviceKind::Joystick)
                &&& final(self).slots(DeviceKind::Gamepad) == old(self).slots(DeviceKind::Gamepad)
            },
            raw_id < DEVICE_SLOT_COUNT ==> {
                &&& r == Ok::<Option<u64>, DeviceError>(old(self).slots(kind)[raw_id as int])
                &&& final(self).slots(kind) == spec_added(
                    old(self).slots(kind),
                    raw_id as int,
                    handle,
                )
                &&& final(self).slots(other_kind(kind)) == old(self).slots(other_kind(kind))
            },
    {
        if raw_id >= DEVICE_SLOT_COUNT {
            return Err(DeviceError::SlotOutOfRange { raw_id });
        }
        let prior: Option<u64> = match kind {
            DeviceKind::Joystick => {
                let p = self.joysticks[raw_id];
                self.joysticks[raw_id] = Some(handle);
                p
            },
            DeviceKind::Gamepad => {
                let p = self.gamepads[raw_id];
                self.gamepads[raw_id] = Some(handle);
                p
            },
        };
        Ok(prior)
    }

    /// Records a hot-plug "removed" event.  Rejects a raw id outside the
    /// addressable range; otherwise clears the slot and returns the
    /// removed occupant, `None` being the recoverable anomaly of a
    /// remove without a prior add (logged, loop continues).
    pub fn on_device_removed(&mut self, kind: DeviceKind, raw_id: usize) -> (r: Result<
        Option<u64>,
        DeviceError,
    >)
        requires
            old(self).wf(),
        ensures
            final(self).wf(),
            raw_id >= DEVICE_SLOT_COUNT ==> {
                &&& r == Err::<Option<u64>, DeviceError>(DeviceError::SlotOutOfRange { raw_id })
                &&& final(self).slots(DeviceKind::Joystick) == old(self).slots(DeviceKind::Joystick)
                &&& final(self).slots(DeviceKind::Gamepad) == old(self).slots(DeviceKind::Gamepad)
            },
            raw_id < DEVICE_SLOT_COUNT ==> {
                &&& r == Ok::<Option<u64>, DeviceError>(old(self).slots(kind)[raw_id as int])
                &&& final(self).slots(kind) == spec_removed(old(self).slots(kind), raw_id as int)
                &&& final(self).slots(other_kind(kind)) == old(self).slots(other_kind(kind))
            },
    {
        if raw_id >= DEVICE_SLOT_COUNT {
            return Err(DeviceError::SlotOutOfRange { raw_id });
        }
        let prior: Option<u64> = match kind {
            DeviceKind::Joystick => {
                let p = self.joysticks[raw_id];
                self.joysticks[raw_id] = None;
                p
            },
            DeviceKind::Gamepad => {
                let p = self.gamepads[raw_id];
                self.gamepads[raw_id] = None;
                p
            },
        };
        Ok(prior)
    }
}

/// The device class that an operation on `kind` leaves untouched.
pub open spec fn other_kind(kind: DeviceKind) -> DeviceKind {
    match kind {
        DeviceKind::Joystick => DeviceKind::Gamepad,
        DeviceKind::Gamepad => DeviceKind::Joystick,
    }
}

/// Law: for every addressable raw id, an add followed by a remove of the
/// same id leaves that slot empty and every other slot as it was.
pub proof fn lemma_add_then_remove_empties(
    slots: Seq<Option<u64>>,
    raw_id: int,
    handle: u64,
)
    requires
        slots.len() == DEVICE_SLOT_COUNT,
        0 <= raw_id < DEVICE_SLOT_COUNT,
    ensures
        spec_removed(spec_added(slots, raw_id, handle), raw_id)[raw_id] is None,
        forall|j: int|
            0 <= j < DEVICE_SLOT_COUNT && j != raw_id ==> spec_removed(
                spec_added(slots, raw_id, handle),
                raw_id,
            )[j] == slots[j],
{
}

/// Law: re-adding over an occupied slot leaves exactly the new handle
/// live there, and the prior handle is handed back (to be released) by
/// that one add alone.
pub proof fn lemma_readd_replaces(
    slots: Seq<Option<u64>>,
    raw_id: int,
    first: u64,
    second: u64,
)
    requires
        slots.len() == DEVICE_SLOT_COUNT,
        0 <= raw_id < DEVICE_SLOT_COUNT,
    ensures
        spec_added(spec_added(slots, raw_id, first), raw_id, second)[raw_id] == Some(second),
        spec_added(slots, raw_id, first)[raw_id] == Some(first),
{
}

} // verus!
