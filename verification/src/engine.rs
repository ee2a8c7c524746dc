//! The engine's side of the binding: the process-wide current-context slot,
//! the instances the engine has handed out, and the primitives that create,
//! release and select them.

use crate::gate::new_gate;
use vstd::prelude::*;

verus! {

/// Mathematical model of the engine's process-wide state.
///
/// Handles are issued in order and never issued twice: handle `h` was issued
/// once `h < slots.len()`, and `slots[h]` tells whether the instance behind it
/// is still alive.
pub struct EngineModel {
    pub current: Option<nat>,
    pub slots: Seq<bool>,
}

impl EngineModel {
    /// The state of an engine that has created nothing yet.
    pub open spec fn initial() -> EngineModel {
        EngineModel { current: None, slots: Seq::empty() }
    }

    pub open spec fn no_current(self) -> bool {
        self.current is None
    }

    pub open spec fn is_current(self, handle: nat) -> bool {
        self.current == Some(handle)
    }

    pub open spec fn issued(self, handle: nat) -> bool {
        handle < self.slots.len()
    }

    pub open spec fn live(self, handle: nat) -> bool {
        handle < self.slots.len() && self.slots[handle as int]
    }

    /// The handle that the next created instance gets.
    pub open spec fn next_handle(self) -> nat {
        self.slots.len()
    }

    /// The slot names nothing, or an instance that is alive.
    pub open spec fn wf(self) -> bool {
        self.current matches Some(handle) ==> self.live(handle)
    }

    /// Creating an instance: it gets the next handle, and becomes current
    /// when nothing was current.
    pub open spec fn create(self) -> EngineModel {
        EngineModel {
            current: if self.current is None {
                Some(self.next_handle())
            } else {
                self.current
            },
            slots: self.slots.push(true),
        }
    }

    /// Overwriting the slot, whatever it held.
    pub open spec fn set_current(self, current: Option<nat>) -> EngineModel {
        EngineModel { current, slots: self.slots }
    }

    /// Trying to make `handle` current: it takes the slot if the slot is
    /// empty, and nothing changes otherwise.
    pub open spec fn activate(self, handle: nat) -> EngineModel {
        if self.no_current() {
            self.set_current(Some(handle))
        } else {
            self
        }
    }

    /// Emptying the slot if it names `handle`.
    pub open spec fn deactivate(self, handle: nat) -> EngineModel {
        if self.is_current(handle) {
            self.set_current(None)
        } else {
            self
        }
    }

    /// Releasing the instance behind `handle`: it is no longer alive, and the
    /// slot is emptied if it named that instance.
    pub open spec fn destroy(self, handle: nat) -> EngineModel {
        EngineModel {
            current: self.deactivate(handle).current,
            slots: if self.issued(handle) {
                self.slots.update(handle as int, false)
            } else {
                self.slots
            },
        }
    }
}

/// What the engine sees of a context's four named strings: for each, whether
/// its pointer is set. The text itself stays in the buffer that the owning
/// context keeps.
#[derive(Clone, Copy, Debug)]
pub struct Io {
    pub ini_filename: bool,
    pub log_filename: bool,
    pub backend_platform_name: bool,
    pub backend_renderer_name: bool,
}

/// What an engine instance is: its handle, its name pointers, and the
/// persisted settings it holds.
pub struct InstanceView {
    pub handle: nat,
    pub io: Io,
    pub settings: Seq<u8>,
}

impl InstanceView {
    /// An instance as the engine makes it: no pointer set, no settings.
    pub open spec fn fresh(handle: nat) -> InstanceView {
        InstanceView {
            handle,
            io: Io {
                ini_filename: false,
                log_filename: false,
                backend_platform_name: false,
                backend_renderer_name: false,
            },
            settings: Seq::empty(),
        }
    }
}

/// One engine context instance. The value is the instance: whoever owns it
/// is the only one who can use or release it.
#[derive(Debug)]
pub struct Instance {
    pub(crate) handle: usize,
    pub(crate) io: Io,
    pub(crate) settings: Vec<u8>,
}

impl View for Instance {
    type V = InstanceView;

    closed spec fn view(&self) -> InstanceView {
        InstanceView { handle: self.handle as nat, io: self.io, settings: self.settings@ }
    }
}

impl Instance {
    pub fn handle(&self) -> (handle: usize)
        ensures
            handle == self@.handle,
    {
        self.handle
    }

    /// Takes `data` as the instance's persisted settings, in place of what it
    /// held.
    pub fn load_settings_from_memory(&mut self, data: Vec<u8>)
        ensures
            final(self)@ == (InstanceView { settings: data@, ..old(self)@ }),
        no_unwind
    {
        self.settings = data;
    }

    /// Writes the instance's settings out as a buffer that ends in a NUL byte.
    pub fn save_settings_to_memory(&self) -> (buffer: Vec<u8>)
        ensures
            buffer@ == self@.settings.push(0u8),
    {
        let mut buffer = vstd::slice::slice_to_vec(self.settings.as_slice());
        buffer.push(0u8);
        buffer
    }
}

/// The view of what the slot holds.
pub open spec fn slot_view(slot: Option<usize>) -> Option<nat> {
    match slot {
        Some(handle) => Some(handle as nat),
        None => None,
    }
}

/// The engine's process-wide state: the current-context slot and, for each
/// handle issued so far, whether its instance is alive.
pub struct EngineState {
    current: Option<usize>,
    slots: Vec<bool>,
}

impl View for EngineState {
    type V = EngineModel;

    closed spec fn view(&self) -> EngineModel {
        EngineModel { current: slot_view(self.current), slots: self.slots@ }
    }
}

impl EngineState {
    pub fn new() -> (state: EngineState)
        ensures
            state@ == EngineModel::initial(),
    {
        EngineState { current: None, slots: Vec::new() }
    }

    /// Allocates a new instance. It becomes current if nothing was.
    pub fn create_context(&mut self) -> (instance: Instance)
        ensures
            final(self)@ == old(self)@.create(),
            instance@ == InstanceView::fresh(old(self)@.next_handle()),
    {
        let handle: usize = self.slots.len();
        self.slots.push(true);
        if self.current.is_none() {
            self.current = Some(handle);
        }
        Instance {
            handle,
            io: Io {
                ini_filename: false,
                log_filename: false,
                backend_platform_name: false,
                backend_renderer_name: false,
            },
            settings: Vec::new(),
        }
    }

    /// Releases an instance, and empties the slot if it named that instance.
    pub fn destroy_context(&mut self, instance: Instance)
        ensures
            final(self)@ == old(self)@.destroy(instance@.handle),
    {
        let handle: usize = instance.handle;
        if handle < self.slots.len() {
            self.slots.set(handle, false);
        }
        if self.current == Some(handle) {
            self.current = None;
        }
    }

    /// The handle in the slot, if any.
    pub fn get_current_context(&self) -> (current: Option<usize>)
        ensures
            slot_view(current) == self@.current,
    {
        self.current
    }

    /// Overwrites the slot.
    pub fn set_current_context(&mut self, handle: Option<usize>)
        ensures
            final(self)@ == old(self)@.set_current(slot_view(handle)),
    {
        self.current = handle;
    }
}

/// The engine together with its gate, the lock that guards it. A program
/// keeps one.
///
/// Every operation on contexts takes the engine by exclusive reference, which
/// is what its contract is proved from, and holds the engine's lock from its
/// first step to its last, which is what serialises the threads of a program
/// that reach the engine through shared state.
pub struct Engine {
    pub(crate) gate: parking_lot::ReentrantMutex<()>,
    pub(crate) state: EngineState,
}

impl View for Engine {
    type V = EngineModel;

    closed spec fn view(&self) -> EngineModel {
        self.state@
    }
}

impl Engine {
    /// An engine that has created nothing, behind a gate that nobody holds.
    pub fn new() -> (engine: Engine)
        ensures
            engine@ == EngineModel::initial(),
    {
        Engine { gate: new_gate(), state: EngineState::new() }
    }
}

/// The engine's view is that of its state; the lock has no part in it.
pub(crate) broadcast proof fn lemma_engine_view(engine: &Engine)
    ensures
        #[trigger] engine@ == engine.state@,
{
}

/// The view of an instance is made of its fields.
pub(crate) broadcast proof fn lemma_instance_view(instance: &Instance)
    ensures
        #[trigger] instance@ == (InstanceView {
            handle: instance.handle as nat,
            io: instance.io,
            settings: instance.settings@,
        }),
{
}

pub(crate) broadcast group group_engine_views {
    lemma_engine_view,
    lemma_instance_view,
}

} // verus!
