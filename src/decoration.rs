use crate::association::{AlreadyBound, AssociationTable};
use std::collections::HashMap;
use vstd::prelude::*;

verus! {

broadcast use vstd::std_specs::hash::group_hash_axioms;

/// Who draws a window's decorations.
#[derive(Clone, Copy, Debug, PartialEq, Eq, Structural)]
pub enum Mode {
    ServerSide,
    ClientSide,
}

/// A request that a client sends on a decoration object.
#[derive(Clone, Copy, Debug, PartialEq, Eq, Structural)]
pub enum DecorationRequest {
    SetMode { mode: Mode },
    UnsetMode,
}

/// Events handed to the compositor's decoration policy.
#[derive(Clone, Copy, Debug, PartialEq, Eq, Structural)]
pub enum XdgDecorationRequest {
    /// A new toplevel decoration was instantiated.
    NewToplevelDecoration { toplevel: u64 },
    /// The client prefers the provided decoration mode.
    SetMode { toplevel: u64, mode: Mode },
    /// The client doesn't prefer a particular decoration mode.
    UnsetMode { toplevel: u64 },
}

/// A live decoration object: the window it was created for, and whether it
/// became that window's decoration (`false`: it was refused, and is inert).
#[derive(Clone, Copy, Debug, PartialEq, Eq, Structural)]
pub struct DecorationObject {
    pub toplevel: u64,
    pub bound: bool,
}

/// What the decoration subsystem knows: window slots and live decoration objects.
pub struct DecorationState {
    pub slots: Map<u64, u64>,
    pub objects: Map<u64, DecorationObject>,
}

/// Object `id` is the active decoration of window `w`.
pub open spec fn active(s: DecorationState, id: u64, w: u64) -> bool {
    s.objects.contains_key(id) && s.objects[id].bound && s.objects[id].toplevel == w
}

/// Slots and objects agree: a window's slot names an active object for that
/// window, and every active object is named by its window's slot.
pub open spec fn state_wf(s: DecorationState) -> bool {
    &&& forall|w: u64| #[trigger] s.slots.contains_key(w) ==> active(s, s.slots[w], w)
    &&& forall|id: u64|
        #[trigger] s.objects.contains_key(id) && s.objects[id].bound ==> s.slots.contains_key(
            s.objects[id].toplevel,
        ) && s.slots[s.objects[id].toplevel] == id
}

/// Outcome of `get_toplevel_decoration(id, w)`: a window that already has a
/// decoration object refuses the new one, which stays allocated but inert.
pub open spec fn get_spec(s: DecorationState, id: u64, w: u64) -> (DecorationState, Result<
    XdgDecorationRequest,
    AlreadyBound,
>) {
    if s.slots.contains_key(w) {
        (
            DecorationState {
                slots: s.slots,
                objects: s.objects.insert(id, DecorationObject { toplevel: w, bound: false }),
            },
            Err(AlreadyBound),
        )
    } else {
        (
            DecorationState {
                slots: s.slots.insert(w, id),
                objects: s.objects.insert(id, DecorationObject { toplevel: w, bound: true }),
            },
            Ok(XdgDecorationRequest::NewToplevelDecoration { toplevel: w }),
        )
    }
}

/// The event that `req` on a decoration object of window `w` relays.
pub open spec fn relay(w: u64, req: DecorationRequest) -> XdgDecorationRequest {
    match req {
        DecorationRequest::SetMode { mode } => XdgDecorationRequest::SetMode { toplevel: w, mode },
        DecorationRequest::UnsetMode => XdgDecorationRequest::UnsetMode { toplevel: w },
    }
}

/// Event for `req` on object `id`: relayed only by an active object.
pub open spec fn request_spec(s: DecorationState, id: u64, req: DecorationRequest) -> Option<
    XdgDecorationRequest,
> {
    if s.objects.contains_key(id) && s.objects[id].bound {
        Some(relay(s.objects[id].toplevel, req))
    } else {
        None
    }
}

/// State after the destructor of object `id`: the object is gone, and its
/// window's slot is cleared if the object was bound to it.
pub open spec fn destroy_spec(s: DecorationState, id: u64) -> DecorationState {
    if s.objects.contains_key(id) {
        DecorationState {
            slots: if s.objects[id].bound {
                s.slots.remove(s.objects[id].toplevel)
            } else {
                s.slots
            },
            objects: s.objects.remove(id),
        }
    } else {
        s
    }
}

/// The decoration subsystem of one display: the association of windows to
/// decoration objects, and the decoration objects that are alive.
pub struct DecorationManager {
    table: AssociationTable,
    objects: HashMap<u64, DecorationObject>,
}

impl View for DecorationManager {
    type V = DecorationState;

    closed spec fn view(&self) -> DecorationState {
        DecorationState { slots: self.table@, objects: self.objects@ }
    }
}

impl DecorationManager {
    /// No window has a decoration object.
    pub fn new() -> (r: DecorationManager)
        ensures
            r@.slots == Map::<u64, u64>::empty(),
            r@.objects == Map::<u64, DecorationObject>::empty(),
            state_wf(r@),
    {
        DecorationManager { table: AssociationTable::new(), objects: HashMap::new() }
    }

    /// Handles `get_toplevel_decoration` with the new object `id` for window
    /// `toplevel`. On success the event for the policy is returned; if the
    /// window already has a decoration object, `Err(AlreadyBound)` is returned,
    /// which the caller posts as a protocol error on `id`.
    pub fn get_toplevel_decoration(&mut self, id: u64, toplevel: u64) -> (r: Result<
        XdgDecorationRequest,
        AlreadyBound,
    >)
        requires
            state_wf(old(self)@),
            !old(self)@.objects.contains_key(id),
        ensures
            (final(self)@, r) == get_spec(old(self)@, id, toplevel),
            state_wf(final(self)@),
    {
        match self.table.bind(toplevel, id) {
            Ok(()) => {
                self.objects.insert(id, DecorationObject { toplevel, bound: true });
                Ok(XdgDecorationRequest::NewToplevelDecoration { toplevel })
            },
            Err(e) => {
                self.objects.insert(id, DecorationObject { toplevel, bound: false });
                Err(e)
            },
        }
    }

    /// Handles a request on decoration object `id`: an active object relays it
    /// as an event for its window; any other object yields nothing.
    pub fn request(&self, id: u64, req: DecorationRequest) -> (r: Option<XdgDecorationRequest>)
        ensures
            r == request_spec(self@, id, req),
    {
        match self.objects.get(&id) {
            Some(obj) => {
                if obj.bound {
                    match req {
                        DecorationRequest::SetMode { mode } => Some(
                            XdgDecorationRequest::SetMode { toplevel: obj.toplevel, mode },
                        ),
                        DecorationRequest::UnsetMode => Some(
                            XdgDecorationRequest::UnsetMode { toplevel: obj.toplevel },
                        ),
                    }
                } else {
                    None
                }
            },
            None => None,
        }
    }

    /// Destructor of decoration object `id`: forgets it and, if it was its
    /// window's decoration, clears the window's slot. Emits no event.
    pub fn destroy(&mut self, id: u64)
        requires
            state_wf(old(self)@),
        ensures
            final(self)@ == destroy_spec(old(self)@, id),
            state_wf(final(self)@),
    {
        match self.objects.remove(&id) {
            Some(obj) => {
                if obj.bound {
                    self.table.unbind(obj.toplevel);
                }
            },
            None => {},
        }
        assert(self@.slots =~= destroy_spec(old(self)@, id).slots);
        assert(self@.objects =~= destroy_spec(old(self)@, id).objects);
    }

    /// The decoration object of window `toplevel`, if it has one.
    pub fn decoration_of(&self, toplevel: u64) -> (r: Option<u64>)
        ensures
            r == (if self@.slots.contains_key(toplevel) {
                Some(self@.slots[toplevel])
            } else {
                None::<u64>
            }),
    {
        self.table.get(toplevel)
    }

    /// Whether `id` is a live decoration object bound to its window.
    pub fn is_active(&self, id: u64) -> (r: bool)
        ensures
            r == (self@.objects.contains_key(id) && self@.objects[id].bound),
    {
        match self.objects.get(&id) {
            Some(obj) => obj.bound,
            None => false,
        }
    }
}

} // verus!
