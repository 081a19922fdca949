//! The session state store and its event dispatcher.
//!
//! The store holds, as plain values, everything the session learns from
//! the compositor: which globals were advertised, the known outputs and
//! their names, the captured keymap, and the in-flight capture state.
//! The protocol handles themselves (seat, managers, outputs, frames)
//! live with the process that owns the connection; it forwards each
//! incoming event here as a [`SessionEvent`] and performs whatever
//! binding [`event`](AppData::event) directs.

use vstd::prelude::*;

use crate::errors::{Capability, OutputResolutionError, WdError};

verus! {

/// String equality by contents, usable against a literal.
fn str_eq(a: &String, b: &str) -> (r: bool)
    ensures
        r == (a@ == b@),
{
    let owned: String = b.to_owned();
    *a == owned
}

/// The six interface names the registry handler matches are pairwise
/// distinct, so at most one branch of the match can apply.
pub proof fn lemma_interface_literals_distinct()
    ensures
        "wl_seat"@ != "zwp_virtual_keyboard_manager_v1"@,
        "wl_seat"@ != "zwlr_virtual_pointer_manager_v1"@,
        "wl_seat"@ != "zwlr_screencopy_manager_v1"@,
        "wl_seat"@ != "wl_output"@,
        "wl_seat"@ != "wl_shm"@,
        "zwp_virtual_keyboard_manager_v1"@ != "zwlr_virtual_pointer_manager_v1"@,
        "zwp_virtual_keyboard_manager_v1"@ != "zwlr_screencopy_manager_v1"@,
        "zwp_virtual_keyboard_manager_v1"@ != "wl_output"@,
        "zwp_virtual_keyboard_manager_v1"@ != "wl_shm"@,
        "zwlr_virtual_pointer_manager_v1"@ != "zwlr_screencopy_manager_v1"@,
        "zwlr_virtual_pointer_manager_v1"@ != "wl_output"@,
        "zwlr_virtual_pointer_manager_v1"@ != "wl_shm"@,
        "zwlr_screencopy_manager_v1"@ != "wl_output"@,
        "zwlr_screencopy_manager_v1"@ != "wl_shm"@,
        "wl_output"@ != "wl_shm"@,
{
    reveal_strlit("wl_seat");
    reveal_strlit("zwp_virtual_keyboard_manager_v1");
    reveal_strlit("zwlr_virtual_pointer_manager_v1");
    reveal_strlit("zwlr_screencopy_manager_v1");
    reveal_strlit("wl_output");
    reveal_strlit("wl_shm");
    assert("wl_seat"@.len() == 7);
    assert("zwp_virtual_keyboard_manager_v1"@.len() == 31);
    assert("zwlr_virtual_pointer_manager_v1"@.len() == 31);
    assert("zwlr_screencopy_manager_v1"@.len() == 26);
    assert("wl_output"@.len() == 9);
    assert("wl_shm"@.len() == 6);
    // the two names of equal length differ in their third character
    assert("zwp_virtual_keyboard_manager_v1"@[2] == 'p');
    assert("zwlr_virtual_pointer_manager_v1"@[2] == 'l');
}

/// Whether this output carries the given human-readable name.
pub open spec fn output_named(o: Output, name: Seq<char>) -> bool {
    o.name matches Some(n) && n@ == name
}

/// The keymap captured from the physical keyboard: a format tag, a raw
/// file descriptor to a memory-mappable blob, and its byte size.
#[derive(Clone, Copy, Debug, PartialEq, Eq, Structural)]
pub struct Keymap {
    pub format: u32,
    pub fd: i32,
    pub size: u32,
}

/// The buffer parameters the compositor negotiated for a capture.
#[derive(Clone, Copy, Debug, PartialEq, Eq, Structural)]
pub struct Buffer {
    pub format: u32,
    pub width: u32,
    pub height: u32,
    pub stride: u32,
}

impl Buffer {
    /// The byte size of the pixel buffer: four bytes (one each for the
    /// alpha-padded R, G, B channels) per pixel, independent of the
    /// advertised stride.
    pub fn size(&self) -> (r: usize)
        requires
            4 * self.height * self.width <= usize::MAX,
        ensures
            r == 4 * self.height * self.width,
    {
        proof {
            assert(self.height * self.width <= 4 * self.height * self.width && 4 * (
            self.height * self.width) == 4 * self.height * self.width) by (nonlinear_arith);
        }
        let pixels: usize = self.height as usize * self.width as usize;
        4 * pixels
    }
}

/// One compositor output: the numeric registry name it was bound under,
/// and the human-readable name filled in by an asynchronous event.
pub struct Output {
    pub id: u32,
    pub name: Option<String>,
}

/// One in-flight screen capture: the frame handle lives with the
/// connection owner; here only the asynchronously filled buffer
/// parameters.
pub struct Screencopy {
    pub buffer: Option<Buffer>,
}

impl Screencopy {
    /// A fresh capture request, its buffer parameters not yet known.
    pub fn new() -> (r: Screencopy)
        ensures
            r.buffer is None,
    {
        Screencopy { buffer: None }
    }
}

/// An incoming event, already decoded by the connection owner.
/// Events that mutate no session state arrive as [`SessionEvent::Inert`].
pub enum SessionEvent {
    /// The registry advertised a global: its interface name and the
    /// numeric name it can be bound under.
    Global { interface: String, id: u32 },
    /// An output (bound under numeric name `id`) reported its
    /// human-readable name.
    OutputName { id: u32, name: String },
    /// The physical keyboard delivered its keymap.
    KeymapReceived { format: u32, fd: i32, size: u32 },
    /// The in-flight capture's buffer parameters were negotiated.
    ScreencopyBuffer { format: u32, width: u32, height: u32, stride: u32 },
    /// The in-flight capture completed.
    ScreencopyReady,
    /// Any event that changes nothing (seat, managers, shared-memory
    /// factory, pools, buffers, virtual devices, key repeat, ...).
    Inert,
}

/// What the connection owner must bind after a `Global` event.
#[derive(Clone, Copy, Debug, PartialEq, Eq, Structural)]
pub enum GlobalBinding {
    Seat,
    VirtualKeyboardManager,
    VirtualPointerManager,
    ScreencopyManager,
    /// Bind a new output under this numeric name.
    Output(u32),
    Shm,
    NoBind,
}

/// All session state learned from the compositor.
pub struct AppData {
    pub seat: bool,
    pub vkm: bool,
    pub vpm: bool,
    pub keymap: Option<Keymap>,
    pub screencopy_manager: bool,
    pub outputs: Vec<Output>,
    pub shm: bool,
    pub screencopy: Option<Screencopy>,
    pub screencopy_in_progress: bool,
}

impl Default for AppData {
    /// An empty store: no globals, no outputs, nothing in flight.
    fn default() -> (r: AppData)
        ensures
            !r.seat && !r.vkm && !r.vpm && !r.screencopy_manager && !r.shm,
            r.keymap is None,
            r.outputs@.len() == 0,
            r.screencopy is None,
            !r.screencopy_in_progress,
    {
        AppData {
            seat: false,
            vkm: false,
            vpm: false,
            keymap: None,
            screencopy_manager: false,
            outputs: Vec::new(),
            shm: false,
            screencopy: None,
            screencopy_in_progress: false,
        }
    }
}

impl AppData {
    /// Whether an output bound under numeric name `id` is known.
    pub open spec fn spec_has_output(self, id: u32) -> bool {
        exists|i: int| 0 <= i < self.outputs@.len() && self.outputs@[i].id == id
    }

    /// Output ids are unique: the registry binds each numeric name once,
    /// and re-announcement replaces the entry.
    pub open spec fn wf(self) -> bool {
        forall|i: int, j: int|
            0 <= i < j < self.outputs@.len() ==> self.outputs@[i].id != self.outputs@[j].id
    }

    /// Whether the advertised capability is present.
    pub open spec fn spec_has_capability(self, c: Capability) -> bool {
        match c {
            Capability::Seat => self.seat,
            Capability::VirtualKeyboardManager => self.vkm,
            Capability::VirtualPointerManager => self.vpm,
            Capability::ScreencopyManager => self.screencopy_manager,
            Capability::ShmFactory => self.shm,
        }
    }

    /// The outputs after a `wl_output` global announcement: a re-announced
    /// numeric name replaces its entry (the fresh entry is unnamed), a new
    /// one is appended.
    pub open spec fn spec_add_output(outputs: Seq<Output>, id: u32) -> Seq<Output> {
        if exists|i: int| 0 <= i < outputs.len() && outputs[i].id == id {
            let i = choose|i: int| 0 <= i < outputs.len() && outputs[i].id == id;
            outputs.update(i, Output { id, name: None })
        } else {
            outputs.push(Output { id, name: None })
        }
    }

    /// Which binding a `Global` announcement directs.
    pub open spec fn spec_bind_for(interface: Seq<char>, id: u32) -> GlobalBinding {
        if interface == "wl_seat"@ {
            GlobalBinding::Seat
        } else if interface == "zwp_virtual_keyboard_manager_v1"@ {
            GlobalBinding::VirtualKeyboardManager
        } else if interface == "zwlr_virtual_pointer_manager_v1"@ {
            GlobalBinding::VirtualPointerManager
        } else if interface == "zwlr_screencopy_manager_v1"@ {
            GlobalBinding::ScreencopyManager
        } else if interface == "wl_output"@ {
            GlobalBinding::Output(id)
        } else if interface == "wl_shm"@ {
            GlobalBinding::Shm
        } else {
            GlobalBinding::NoBind
        }
    }

    /// Demand a capability, surfacing its absence as the configuration
    /// error the taxonomy gives it.
    pub fn require_capability(&self, c: Capability) -> (r: Result<(), WdError>)
        ensures
            r is Ok <==> self.spec_has_capability(c),
            r is Err ==> r == Err::<(), WdError>(WdError::CapabilityMissing(c)),
    {
        let present = match c {
            Capability::Seat => self.seat,
            Capability::VirtualKeyboardManager => self.vkm,
            Capability::VirtualPointerManager => self.vpm,
            Capability::ScreencopyManager => self.screencopy_manager,
            Capability::ShmFactory => self.shm,
        };
        if present {
            Ok(())
        } else {
            Err(WdError::CapabilityMissing(c))
        }
    }

    /// Route one incoming event into the store, returning the binding
    /// the connection owner must perform (only `Global` events direct
    /// one). An output-name event presumes the output is known, and
    /// buffer parameters presume a capture is in flight: the compositor
    /// sends both only for objects this session bound.
    pub fn event(&mut self, e: SessionEvent) -> (b: GlobalBinding)
        requires
            old(self).wf(),
            e matches SessionEvent::OutputName { id, .. } ==> old(self).spec_has_output(id),
            e is ScreencopyBuffer ==> old(self).screencopy is Some,
        ensures
            final(self).wf(),
            match e {
                SessionEvent::Global { interface, id } => {
                    &&& b == AppData::spec_bind_for(interface@, id)
                    &&& final(self).outputs@ == if interface@ == "wl_output"@ {
                        AppData::spec_add_output(old(self).outputs@, id)
                    } else {
                        old(self).outputs@
                    }
                    &&& final(self).seat == (old(self).seat || interface@ == "wl_seat"@)
                    &&& final(self).vkm == (old(self).vkm || interface@
                        == "zwp_virtual_keyboard_manager_v1"@)
                    &&& final(self).vpm == (old(self).vpm || interface@
                        == "zwlr_virtual_pointer_manager_v1"@)
                    &&& final(self).screencopy_manager == (old(self).screencopy_manager
                        || interface@ == "zwlr_screencopy_manager_v1"@)
                    &&& final(self).shm == (old(self).shm || interface@ == "wl_shm"@)
                    &&& final(self).keymap == old(self).keymap
                    &&& final(self).screencopy == old(self).screencopy
                    &&& final(self).screencopy_in_progress == old(self).screencopy_in_progress
                },
                SessionEvent::OutputName { id, name } => {
                    &&& b == GlobalBinding::NoBind
                    &&& exists|i: int|
                        0 <= i < old(self).outputs@.len() && old(self).outputs@[i].id == id
                            && final(self).outputs@ == old(self).outputs@.update(
                            i,
                            Output { id, name: Some(name) },
                        )
                    &&& final(self).seat == old(self).seat
                    &&& final(self).vkm == old(self).vkm
                    &&& final(self).vpm == old(self).vpm
                    &&& final(self).screencopy_manager == old(self).screencopy_manager
                    &&& final(self).shm == old(self).shm
                    &&& final(self).keymap == old(self).keymap
                    &&& final(self).screencopy == old(self).screencopy
                    &&& final(self).screencopy_in_progress == old(self).screencopy_in_progress
                },
                SessionEvent::KeymapReceived { format, fd, size } => {
                    &&& b == GlobalBinding::NoBind
                    &&& *final(self) == (AppData {
                        keymap: Some(Keymap { format, fd, size }),
                        ..*old(self)
                    })
                },
                SessionEvent::ScreencopyBuffer { format, width, height, stride } => {
                    &&& b == GlobalBinding::NoBind
                    &&& *final(self) == (AppData {
                        screencopy: Some(
                            Screencopy { buffer: Some(Buffer { format, width, height, stride }) },
                        ),
                        ..*old(self)
                    })
                },
                SessionEvent::ScreencopyReady => {
                    &&& b == GlobalBinding::NoBind
                    &&& *final(self) == (AppData { screencopy_in_progress: false, ..*old(self) })
                },
                SessionEvent::Inert => b == GlobalBinding::NoBind && *final(self) == *old(self),
            },
    {
        match e {
            SessionEvent::Global { interface, id } => self.on_global(interface, id),
            SessionEvent::OutputName { id, name } => {
                let mut i: usize = 0;
                loop
                    invariant
                        0 <= i <= self.outputs@.len(),
                        *self == *old(self),
                        old(self).wf(),
                        old(self).spec_has_output(id),
                        forall|j: int| 0 <= j < i ==> self.outputs@[j].id != id,
                    ensures
                        *self == *old(self),
                        0 <= i < self.outputs@.len(),
                        self.outputs@[i as int].id == id,
                        forall|j: int| 0 <= j < i ==> self.outputs@[j].id != id,
                    decreases self.outputs@.len() - i,
                {
                    if i == self.outputs.len() {
                        // unreachable: the output is known
                        break ;
                    }
                    if self.outputs[i].id == id {
                        break ;
                    }
                    i = i + 1;
                }
                self.outputs[i] = Output { id, name: Some(name) };
                assert(self.wf()) by {
                    assert(forall|j: int|
                        0 <= j < self.outputs@.len() && j != i ==> self.outputs@[j].id == old(
                            self,
                        ).outputs@[j].id);
                }
                GlobalBinding::NoBind
            },
            SessionEvent::KeymapReceived { format, fd, size } => {
                self.keymap = Some(Keymap { format, fd, size });
                GlobalBinding::NoBind
            },
            SessionEvent::ScreencopyBuffer { format, width, height, stride } => {
                self.screencopy = Some(
                    Screencopy { buffer: Some(Buffer { format, width, height, stride }) },
                );
                GlobalBinding::NoBind
            },
            SessionEvent::ScreencopyReady => {
                self.screencopy_in_progress = false;
                GlobalBinding::NoBind
            },
            SessionEvent::Inert => GlobalBinding::NoBind,
        }
    }

    /// The `Global` arm of [`event`](AppData::event): match the advertised
    /// interface name, record the capability or output, and direct the
    /// binding.
    fn on_global(&mut self, interface: String, id: u32) -> (b: GlobalBinding)
        requires
            old(self).wf(),
        ensures
            final(self).wf(),
            b == AppData::spec_bind_for(interface@, id),
            final(self).outputs@ == if interface@ == "wl_output"@ {
                AppData::spec_add_output(old(self).outputs@, id)
            } else {
                old(self).outputs@
            },
            final(self).seat == (old(self).seat || interface@ == "wl_seat"@),
            final(self).vkm == (old(self).vkm || interface@
                == "zwp_virtual_keyboard_manager_v1"@),
            final(self).vpm == (old(self).vpm || interface@
                == "zwlr_virtual_pointer_manager_v1"@),
            final(self).screencopy_manager == (old(self).screencopy_manager || interface@
                == "zwlr_screencopy_manager_v1"@),
            final(self).shm == (old(self).shm || interface@ == "wl_shm"@),
            final(self).keymap == old(self).keymap,
            final(self).screencopy == old(self).screencopy,
            final(self).screencopy_in_progress == old(self).screencopy_in_progress,
    {
        proof {
            lemma_interface_literals_distinct();
        }
        if str_eq(&interface, "wl_seat") {
            self.seat = true;
            GlobalBinding::Seat
        } else if str_eq(&interface, "zwp_virtual_keyboard_manager_v1") {
            self.vkm = true;
            GlobalBinding::VirtualKeyboardManager
        } else if str_eq(&interface, "zwlr_virtual_pointer_manager_v1") {
            self.vpm = true;
            GlobalBinding::VirtualPointerManager
        } else if str_eq(&interface, "zwlr_screencopy_manager_v1") {
            self.screencopy_manager = true;
            GlobalBinding::ScreencopyManager
        } else if str_eq(&interface, "wl_output") {
            self.add_output(id);
            GlobalBinding::Output(id)
        } else if str_eq(&interface, "wl_shm") {
            self.shm = true;
            GlobalBinding::Shm
        } else {
            GlobalBinding::NoBind
        }
    }

    /// Whether an output bound under numeric name `id` is known.
    pub fn has_output(&self, id: u32) -> (r: bool)
        ensures
            r == self.spec_has_output(id),
    {
        let mut i: usize = 0;
        loop
            invariant
                0 <= i <= self.outputs@.len(),
                forall|j: int| 0 <= j < i ==> self.outputs@[j].id != id,
            ensures
                0 <= i <= self.outputs@.len(),
                forall|j: int| 0 <= j < i ==> self.outputs@[j].id != id,
                i < self.outputs@.len() ==> self.outputs@[i as int].id == id,
            decreases self.outputs@.len() - i,
        {
            if i == self.outputs.len() {
                break ;
            }
            if self.outputs[i].id == id {
                break ;
            }
            i = i + 1;
        }
        i < self.outputs.len()
    }

    /// Whether some known output carries this human-readable name.
    pub open spec fn spec_has_output_named(self, name: Seq<char>) -> bool {
        exists|i: int|
            0 <= i < self.outputs@.len() && #[trigger] output_named(self.outputs@[i], name)
    }

    /// Look an output up by its human-readable name, yielding the numeric
    /// name it was bound under.
    pub fn get_output_by_name(&self, name: &String) -> (r: Option<u32>)
        ensures
            match r {
                Some(id) => exists|i: int|
                    0 <= i < self.outputs@.len() && self.outputs@[i].id == id && #[trigger] output_named(
                        self.outputs@[i],
                        name@,
                    ),
                None => !self.spec_has_output_named(name@),
            },
    {
        let mut i: usize = 0;
        loop
            invariant
                0 <= i <= self.outputs@.len(),
                forall|j: int| 0 <= j < i ==> !#[trigger] output_named(self.outputs@[j], name@),
            ensures
                0 <= i <= self.outputs@.len(),
                forall|j: int| 0 <= j < i ==> !#[trigger] output_named(self.outputs@[j], name@),
                i < self.outputs@.len() ==> output_named(self.outputs@[i as int], name@),
            decreases self.outputs@.len() - i,
        {
            if i == self.outputs.len() {
                break ;
            }
            match &self.outputs[i].name {
                Some(n) => {
                    if str_eq(n, name.as_str()) {
                        break ;
                    }
                },
                None => {},
            }
            i = i + 1;
        }
        if i < self.outputs.len() {
            Some(self.outputs[i].id)
        } else {
            None
        }
    }

    /// Whether every known output has received its name event.
    pub fn all_output_name_set(&self) -> (r: bool)
        ensures
            r <==> forall|i: int| 0 <= i < self.outputs@.len() ==> self.outputs@[i].name is Some,
    {
        let mut i: usize = 0;
        loop
            invariant
                0 <= i <= self.outputs@.len(),
                forall|j: int| 0 <= j < i ==> self.outputs@[j].name is Some,
            ensures
                0 <= i <= self.outputs@.len(),
                forall|j: int| 0 <= j < i ==> self.outputs@[j].name is Some,
                i < self.outputs@.len() ==> self.outputs@[i as int].name is None,
            decreases self.outputs@.len() - i,
        {
            if i == self.outputs.len() {
                break ;
            }
            if self.outputs[i].name.is_none() {
                break ;
            }
            i = i + 1;
        }
        i == self.outputs.len()
    }

    /// Whether the in-flight capture's buffer parameters have arrived.
    /// Only meaningful while a capture is in flight.
    pub fn screencopy_buffer_set(&self) -> (r: bool)
        requires
            self.screencopy is Some,
        ensures
            r == (self.screencopy->Some_0.buffer is Some),
    {
        match &self.screencopy {
            Some(sc) => sc.buffer.is_some(),
            None => false,
        }
    }

    /// Hand the captured keymap out for upload to the virtual keyboard,
    /// clearing it from the store (ownership transfers, it is not
    /// retained). If the keymap event never arrived, that is a transport
    /// failure of the bootstrap.
    pub fn take_keymap(&mut self) -> (r: Result<Keymap, WdError>)
        ensures
            match old(self).keymap {
                Some(k) => r == Ok::<Keymap, WdError>(k) && *final(self) == (AppData {
                    keymap: None,
                    ..*old(self)
                }),
                None => r == Err::<Keymap, WdError>(WdError::Protocol) && *final(self) == *old(
                    self,
                ),
            },
    {
        match self.keymap {
            Some(k) => {
                self.keymap = None;
                Ok(k)
            },
            None => Err(WdError::Protocol),
        }
    }

    /// Resolve the capture target: an explicit name must match a known
    /// output; with no name the sole known output is taken, more than one
    /// is ambiguous, none at all is an error.
    pub fn resolve_output(&self, name: Option<&String>) -> (r: Result<u32, WdError>)
        ensures
            match name {
                Some(n) => match r {
                    Ok(id) => exists|i: int|
                        0 <= i < self.outputs@.len() && self.outputs@[i].id == id && #[trigger] output_named(
                            self.outputs@[i],
                            n@,
                        ),
                    Err(e) => e == WdError::OutputResolution(OutputResolutionError::NoSuchName)
                        && !self.spec_has_output_named(n@),
                },
                None => if self.outputs@.len() > 1 {
                    r == Err::<u32, WdError>(
                        WdError::OutputResolution(OutputResolutionError::Ambiguous),
                    )
                } else if self.outputs@.len() == 0 {
                    r == Err::<u32, WdError>(
                        WdError::OutputResolution(OutputResolutionError::NoOutputs),
                    )
                } else {
                    r == Ok::<u32, WdError>(self.outputs@[0].id)
                },
            },
    {
        match name {
            Some(n) => match self.get_output_by_name(n) {
                Some(id) => Ok(id),
                None => Err(WdError::OutputResolution(OutputResolutionError::NoSuchName)),
            },
            None => {
                if self.outputs.len() > 1 {
                    Err(WdError::OutputResolution(OutputResolutionError::Ambiguous))
                } else if self.outputs.len() == 0 {
                    Err(WdError::OutputResolution(OutputResolutionError::NoOutputs))
                } else {
                    Ok(self.outputs[0].id)
                }
            },
        }
    }

    /// Record a freshly announced output: replace a re-announced numeric
    /// name, append a new one.
    fn add_output(&mut self, id: u32)
        requires
            old(self).wf(),
        ensures
            final(self).wf(),
            final(self).outputs@ == AppData::spec_add_output(old(self).outputs@, id),
            *final(self) == (AppData { outputs: final(self).outputs, ..*old(self) }),
    {
        let mut i: usize = 0;
        loop
            invariant
                0 <= i <= self.outputs@.len(),
                *self == *old(self),
                old(self).wf(),
                forall|j: int| 0 <= j < i ==> self.outputs@[j].id != id,
            ensures
                *self == *old(self),
                0 <= i <= self.outputs@.len(),
                forall|j: int| 0 <= j < i ==> self.outputs@[j].id != id,
                i < self.outputs@.len() ==> self.outputs@[i as int].id == id,
            decreases self.outputs@.len() - i,
        {
            if i == self.outputs.len() {
                break ;
            }
            if self.outputs[i].id == id {
                break ;
            }
            i = i + 1;
        }
        if i < self.outputs.len() {
            self.outputs[i] = Output { id, name: None };
            proof {
                let w = choose|k: int|
                    0 <= k < old(self).outputs@.len() && old(self).outputs@[k].id == id;
                assert(w == i as int);
            }
            assert(self.wf()) by {
                assert(forall|j: int|
                    0 <= j < self.outputs@.len() && j != i ==> self.outputs@[j].id == old(
                        self,
                    ).outputs@[j].id);
            }
        } else {
            self.outputs.push(Output { id, name: None });
        }
    }
}

} // verus!
