//! The frontend application state and its per-frame event kernel.
//!
//! The outermost loop pumps platform events each frame, applies every
//! device hot-plug event to the registry before rendering begins,
//! renders the main and toolbar surfaces, and presents the main surface
//! through the fixed memory-mapped transfer.  The platform pump, the
//! widget drawing and the transfer itself live at the edge; this module
//! holds the state they drive and the decisions they follow.

use vstd::prelude::*;

use crate::devices::{spec_added, spec_removed, DeviceKind, DeviceRegistry, DEVICE_SLOT_COUNT};
use crate::lifecycle::CoreManager;
use crate::surface::{spec_rgba_byte, Surface};

verus! {

/// One platform event observed in a frame, reduced to the plain values
/// the frontend reads from it.  Device handles are the opaque tokens
/// the platform assigned when the device was opened.
#[derive(Clone, Copy, Debug, PartialEq, Eq, Structural)]
pub enum InputEvent {
    Quit,
    JoyDeviceAdded { which: usize, handle: u64 },
    JoyDeviceRemoved { which: usize },
    ControllerDeviceAdded { which: usize, handle: u64 },
    ControllerDeviceRemoved { which: usize },
    Other,
}

/// What one frame's event phase left behind: whether a hard quit was
/// observed (it terminates the process immediately, so no later event
/// of the frame is applied), how many recoverable device anomalies were
/// logged, and how many out-of-range device ids were rejected.
pub struct FrameOutcome {
    pub quit: bool,
    pub anomalies: usize,
    pub rejected: usize,
}

/// The registry tables and counters that folding one frame's events
/// produces.
pub struct FrameTrace {
    pub joysticks: Seq<Option<u64>>,
    pub gamepads: Seq<Option<u64>>,
    pub anomalies: int,
    pub rejected: int,
    pub quit: bool,
}

/// Folds one frame's events over the device slot tables, in order: an
/// add stores the handle and counts an anomaly when it replaces a live
/// one, a remove clears the slot and counts an anomaly when it was
/// already empty, an out-of-range id is rejected and counted, and a
/// hard quit stops the fold at once.
pub open spec fn spec_frame_trace(
    joysticks: Seq<Option<u64>>,
    gamepads: Seq<Option<u64>>,
    events: Seq<InputEvent>,
    anomalies: int,
    rejected: int,
) -> FrameTrace
    decreases events.len(),
{
    if events.len() == 0 {
        FrameTrace { joysticks, gamepads, anomalies, rejected, quit: false }
    } else {
        let rest = events.drop_first();
        match events[0] {
            InputEvent::Quit => FrameTrace { joysticks, gamepads, anomalies, rejected, quit: true },
            InputEvent::JoyDeviceAdded { which, handle } => if which < DEVICE_SLOT_COUNT {
                spec_frame_trace(
                    spec_added(joysticks, which as int, handle),
                    gamepads,
                    rest,
                    anomalies + if joysticks[which as int] is Some {
                        1int
                    } else {
                        0int
                    },
                    rejected,
                )
            } else {
                spec_frame_trace(joysticks, gamepads, rest, anomalies, rejected + 1)
            },
            InputEvent::JoyDeviceRemoved { which } => if which < DEVICE_SLOT_COUNT {
                spec_frame_trace(
                    spec_removed(joysticks, which as int),
                    gamepads,
                    rest,
                    anomalies + if joysticks[which as int] is None {
                        1int
                    } else {
                        0int
                    },
                    rejected,
                )
            } else {
                spec_frame_trace(joysticks, gamepads, rest, anomalies, rejected + 1)
            },
            InputEvent::ControllerDeviceAdded { which, handle } => if which < DEVICE_SLOT_COUNT {
                spec_frame_trace(
                    joysticks,
                    spec_added(gamepads, which as int, handle),
                    rest,
                    anomalies + if gamepads[which as int] is Some {
                        1int
                    } else {
                        0int
                    },
                    rejected,
                )
            } else {
                spec_frame_trace(joysticks, gamepads, rest, anomalies, rejected + 1)
            },
            InputEvent::ControllerDeviceRemoved { which } => if which < DEVICE_SLOT_COUNT {
                spec_frame_trace(
                    joysticks,
                    spec_removed(gamepads, which as int),
                    rest,
                    anomalies + if gamepads[which as int] is None {
                        1int
                    } else {
                        0int
                    },
                    rejected,
                )
            } else {
                spec_frame_trace(joysticks, gamepads, rest, anomalies, rejected + 1)
            },
            InputEvent::Other => spec_frame_trace(joysticks, gamepads, rest, anomalies, rejected),
        }
    }
}

/// The frontend application: the device registry, the two drawing
/// surfaces, the toolbar flags, and the hardware-core lifecycle
/// manager.  Touched only from the single frontend loop.
pub struct GoLEmApp {
    registry: DeviceRegistry,
    render_toolbar: bool,
    invert_toolbar: bool,
    main_buffer: Surface,
    toolbar_buffer: Surface,
    core_manager: CoreManager,
}

impl GoLEmApp {
    /// Surfaces sized and backed, registry tables complete.
    pub closed spec fn wf(self) -> bool {
        &&& self.registry.wf()
        &&& self.main_buffer.wf()
        &&& self.toolbar_buffer.wf()
        &&& 4 * self.main_buffer.spec_pixels().len() <= usize::MAX
        &&& 4 * self.toolbar_buffer.spec_pixels().len() <= usize::MAX
    }

    pub closed spec fn spec_registry(self) -> DeviceRegistry {
        self.registry
    }

    pub closed spec fn spec_render_toolbar(self) -> bool {
        self.render_toolbar
    }

    pub closed spec fn spec_invert_toolbar(self) -> bool {
        self.invert_toolbar
    }

    pub closed spec fn spec_main_buffer(self) -> Surface {
        self.main_buffer
    }

    pub closed spec fn spec_toolbar_buffer(self) -> Surface {
        self.toolbar_buffer
    }

    pub closed spec fn spec_core_manager(self) -> CoreManager {
        self.core_manager
    }

    /// A fresh frontend over the platform-reported main and toolbar
    /// geometry: no devices, cleared surfaces, toolbar rendered and not
    /// inverted, no active core.
    pub fn new(
        main_width: usize,
        main_height: usize,
        toolbar_width: usize,
        toolbar_height: usize,
    ) -> (r: GoLEmApp)
        requires
            4 * (main_width * main_height) <= usize::MAX,
            4 * (toolbar_width * toolbar_height) <= usize::MAX,
        ensures
            r.wf(),
            forall|k: DeviceKind, i: int|
                0 <= i < DEVICE_SLOT_COUNT ==> r.spec_registry().slots(k)[i] is None,
            r.spec_render_toolbar(),
            !r.spec_invert_toolbar(),
            r.spec_main_buffer().spec_width() == main_width,
            r.spec_main_buffer().spec_height() == main_height,
            r.spec_toolbar_buffer().spec_width() == toolbar_width,
            r.spec_toolbar_buffer().spec_height() == toolbar_height,
            r.spec_core_manager().spec_active() is None,
            !r.spec_core_manager().spec_osd_visible(),
    {
        GoLEmApp {
            registry: DeviceRegistry::new(),
            render_toolbar: true,
            invert_toolbar: false,
            main_buffer: Surface::new(main_width, main_height),
            toolbar_buffer: Surface::new(toolbar_width, toolbar_height),
            core_manager: CoreManager::new(),
        }
    }

    /// The main drawing surface, for this frame's rendering.
    pub fn main_buffer(&mut self) -> (r: &mut Surface)
        ensures
            *r == old(self).spec_main_buffer(),
            final(self).spec_main_buffer() == *final(r),
            final(self).spec_registry() == old(self).spec_registry(),
            final(self).spec_render_toolbar() == old(self).spec_render_toolbar(),
            final(self).spec_invert_toolbar() == old(self).spec_invert_toolbar(),
            final(self).spec_toolbar_buffer() == old(self).spec_toolbar_buffer(),
            final(self).spec_core_manager() == old(self).spec_core_manager(),
    {
        &mut self.main_buffer
    }

    /// The toolbar overlay surface, for the widget drawing that follows
    /// a redraw decision.
    pub fn toolbar_buffer(&mut self) -> (r: &mut Surface)
        ensures
            *r == old(self).spec_toolbar_buffer(),
            final(self).spec_toolbar_buffer() == *final(r),
            final(self).spec_registry() == old(self).spec_registry(),
            final(self).spec_render_toolbar() == old(self).spec_render_toolbar(),
            final(self).spec_invert_toolbar() == old(self).spec_invert_toolbar(),
            final(self).spec_main_buffer() == old(self).spec_main_buffer(),
            final(self).spec_core_manager() == old(self).spec_core_manager(),
    {
        &mut self.toolbar_buffer
    }

    /// The hardware-core lifecycle manager.
    pub fn core_manager_mut(&mut self) -> (r: &mut CoreManager)
        ensures
            *r == old(self).spec_core_manager(),
            final(self).spec_core_manager() == *final(r),
            final(self).spec_registry() == old(self).spec_registry(),
            final(self).spec_render_toolbar() == old(self).spec_render_toolbar(),
            final(self).spec_invert_toolbar() == old(self).spec_invert_toolbar(),
            final(self).spec_main_buffer() == old(self).spec_main_buffer(),
            final(self).spec_toolbar_buffer() == old(self).spec_toolbar_buffer(),
    {
        &mut self.core_manager
    }

    /// Stops rendering the toolbar overlay.
    pub fn hide_toolbar(&mut self)
        ensures
            !final(self).spec_render_toolbar(),
            final(self).spec_registry() == old(self).spec_registry(),
            final(self).spec_invert_toolbar() == old(self).spec_invert_toolbar(),
            final(self).spec_main_buffer() == old(self).spec_main_buffer(),
            final(self).spec_toolbar_buffer() == old(self).spec_toolbar_buffer(),
            final(self).spec_core_manager() == old(self).spec_core_manager(),
    {
        self.render_toolbar = false;
    }

    /// Renders the toolbar overlay again.
    pub fn show_toolbar(&mut self)
        ensures
            final(self).spec_render_toolbar(),
            final(self).spec_registry() == old(self).spec_registry(),
            final(self).spec_invert_toolbar() == old(self).spec_invert_toolbar(),
            final(self).spec_main_buffer() == old(self).spec_main_buffer(),
            final(self).spec_toolbar_buffer() == old(self).spec_toolbar_buffer(),
            final(self).spec_core_manager() == old(self).spec_core_manager(),
    {
        self.render_toolbar = true;
    }

    /// Sets the user's toolbar color-inversion preference.
    pub fn set_invert_toolbar(&mut self, invert: bool)
        ensures
            final(self).spec_invert_toolbar() == invert,
            final(self).spec_registry() == old(self).spec_registry(),
            final(self).spec_render_toolbar() == old(self).spec_render_toolbar(),
            final(self).spec_main_buffer() == old(self).spec_main_buffer(),
            final(self).spec_toolbar_buffer() == old(self).spec_toolbar_buffer(),
            final(self).spec_core_manager() == old(self).spec_core_manager(),
    {
        self.invert_toolbar = invert;
    }

    /// The current occupant of one device slot.
    pub fn device_slot(&self, kind: DeviceKind, raw_id: usize) -> (r: Option<u64>)
        requires
            self.wf(),
            raw_id < DEVICE_SLOT_COUNT,
        ensures
            r == self.spec_registry().slots(kind)[raw_id as int],
    {
        self.registry.slot(kind, raw_id)
    }

    /// Applies one frame's platform events to the device registry, in
    /// order and before any rendering, so the registry is never read in
    /// a partially-updated state.  A hard quit event terminates the
    /// frame at once: nothing after it is applied, and the caller exits
    /// the process.  Device anomalies and rejected ids are counted for
    /// the caller to log; neither fails the loop.
    pub fn process_events(&mut self, events: &Vec<InputEvent>) -> (r: FrameOutcome)
        requires
            old(self).wf(),
        ensures
            final(self).wf(),
            ({
                let trace = spec_frame_trace(
                    old(self).spec_registry().slots(DeviceKind::Joystick),
                    old(self).spec_registry().slots(DeviceKind::Gamepad),
                    events@,
                    0,
                    0,
                );
                &&& final(self).spec_registry().slots(DeviceKind::Joystick) == trace.joysticks
                &&& final(self).spec_registry().slots(DeviceKind::Gamepad) == trace.gamepads
                &&& r.quit == trace.quit
                &&& r.anomalies == trace.anomalies
                &&& r.rejected == trace.rejected
            }),
            final(self).spec_render_toolbar() == old(self).spec_render_toolbar(),
            final(self).spec_invert_toolbar() == old(self).spec_invert_toolbar(),
            final(self).spec_main_buffer() == old(self).spec_main_buffer(),
            final(self).spec_toolbar_buffer() == old(self).spec_toolbar_buffer(),
            final(self).spec_core_manager() == old(self).spec_core_manager(),
    {
        let ghost joy0 = old(self).spec_registry().slots(DeviceKind::Joystick);
        let ghost pad0 = old(self).spec_registry().slots(DeviceKind::Gamepad);
        let ghost whole = spec_frame_trace(joy0, pad0, events@, 0, 0);
        let mut anomalies: usize = 0;
        let mut rejected: usize = 0;
        let mut i: usize = 0;
        proof {
            assert(events@.skip(0) =~= events@);
        }
        while i < events.len()
            invariant
                i <= events@.len(),
                anomalies <= i,
                rejected <= i,
                joy0 == old(self).spec_registry().slots(DeviceKind::Joystick),
                pad0 == old(self).spec_registry().slots(DeviceKind::Gamepad),
                whole == spec_frame_trace(joy0, pad0, events@, 0, 0),
                self.wf(),
                self.render_toolbar == old(self).render_toolbar,
                self.invert_toolbar == old(self).invert_toolbar,
                self.main_buffer == old(self).main_buffer,
                self.toolbar_buffer == old(self).toolbar_buffer,
                self.core_manager == old(self).core_manager,
                whole == spec_frame_trace(
                    self.spec_registry().slots(DeviceKind::Joystick),
                    self.spec_registry().slots(DeviceKind::Gamepad),
                    events@.skip(i as int),
                    anomalies as int,
                    rejected as int,
                ),
            decreases events@.len() - i,
        {
            let event = events[i];
            proof {
                assert(events@.skip(i as int)[0] == event);
                assert(events@.skip(i as int).drop_first() =~= events@.skip(i as int + 1));
            }
            match event {
                InputEvent::Quit => {
                    return FrameOutcome { quit: true, anomalies, rejected };
                },
                InputEvent::JoyDeviceAdded { which, handle } => {
                    match self.registry.on_device_added(DeviceKind::Joystick, which, handle) {
                        Ok(Some(_prior)) => {
                            anomalies = anomalies + 1;
                        },
                        Ok(None) => {},
                        Err(_) => {
                            rejected = rejected + 1;
                        },
                    }
                },
                InputEvent::JoyDeviceRemoved { which } => {
                    match self.registry.on_device_removed(DeviceKind::Joystick, which) {
                        Ok(Some(_removed)) => {},
                        Ok(None) => {
                            anomalies = anomalies + 1;
                        },
                        Err(_) => {
                            rejected = rejected + 1;
                        },
                    }
                },
                InputEvent::ControllerDeviceAdded { which, handle } => {
                    match self.registry.on_device_added(DeviceKind::Gamepad, which, handle) {
                        Ok(Some(_prior)) => {
                            anomalies = anomalies + 1;
                        },
                        Ok(None) => {},
                        Err(_) => {
                            rejected = rejected + 1;
                        },
                    }
                },
                InputEvent::ControllerDeviceRemoved { which } => {
                    match self.registry.on_device_removed(DeviceKind::Gamepad, which) {
                        Ok(Some(_removed)) => {},
                        Ok(None) => {
                            anomalies = anomalies + 1;
                        },
                        Err(_) => {
                            rejected = rejected + 1;
                        },
                    }
                },
                InputEvent::Other => {},
            }
            i = i + 1;
        }
        FrameOutcome { quit: false, anomalies, rejected }
    }

    /// Whether this frame redraws the toolbar overlay: only when the
    /// toolbar is rendered at all and its content changed since the
    /// last frame, so toolbar redraws never force a main-surface
    /// re-copy.
    pub fn toolbar_needs_redraw(&self, content_changed: bool) -> (r: bool)
        ensures
            r == (self.spec_render_toolbar() && content_changed),
    {
        self.render_toolbar && content_changed
    }

    /// Finishes a toolbar redraw after the widgets drew their content:
    /// applies the user's optional color inversion before the overlay
    /// is handed to its device-specific update path.
    pub fn finish_toolbar(&mut self)
        requires
            old(self).wf(),
        ensures
            final(self).wf(),
            final(self).spec_toolbar_buffer().spec_width() == old(
                self,
            ).spec_toolbar_buffer().spec_width(),
            final(self).spec_toolbar_buffer().spec_height() == old(
                self,
            ).spec_toolbar_buffer().spec_height(),
            final(self).spec_toolbar_buffer().spec_pixels() == if old(self).spec_invert_toolbar() {
                Seq::new(
                    old(self).spec_toolbar_buffer().spec_pixels().len(),
                    |i: int| !old(self).spec_toolbar_buffer().spec_pixels()[i],
                )
            } else {
                old(self).spec_toolbar_buffer().spec_pixels()
            },
            final(self).spec_registry() == old(self).spec_registry(),
            final(self).spec_render_toolbar() == old(self).spec_render_toolbar(),
            final(self).spec_invert_toolbar() == old(self).spec_invert_toolbar(),
            final(self).spec_main_buffer() == old(self).spec_main_buffer(),
            final(self).spec_core_manager() == old(self).spec_core_manager(),
    {
        if self.invert_toolbar {
            self.toolbar_buffer.invert();
        }
    }

    /// The exact bytes that this frame's presentation writes into the
    /// memory-mapped framebuffer region: one channel-plane's worth of
    /// the main surface's true-color expansion.  This is the single
    /// point of contact with the physical display.
    pub fn main_plane(&self) -> (r: Vec<u8>)
        requires
            self.wf(),
        ensures
            r@.len() == self.spec_main_buffer().spec_pixels().len(),
            forall|i: int|
                0 <= i < r@.len() ==> r@[i] == spec_rgba_byte(
                    self.spec_main_buffer().spec_pixels(),
                    i,
                ),
    {
        self.main_buffer.present_plane()
    }
}

} // verus!
