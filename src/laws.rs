use crate::association::AlreadyBound;
use crate::decoration::{
    active, destroy_spec, get_spec, request_spec, state_wf, DecorationRequest, DecorationState, Mode,
    XdgDecorationRequest,
};
use vstd::prelude::*;

verus! {

/// A window has at most one active decoration object in any well-formed
/// state; a refused `get_toplevel_decoration` leaves the window's slot and its
/// object as they were, and the refused object is not active.
pub proof fn lemma_uniqueness(s: DecorationState, id: u64, w: u64, a: u64, b: u64)
    requires
        state_wf(s),
        !s.objects.contains_key(id),
    ensures
        active(s, a, w) && active(s, b, w) ==> a == b,
        ({
            let (t, r) = get_spec(s, id, w);
            &&& state_wf(t)
            &&& active(t, a, w) && active(t, b, w) ==> a == b
            &&& s.slots.contains_key(w) ==> {
                &&& r == Err::<XdgDecorationRequest, AlreadyBound>(AlreadyBound)
                &&& t.slots == s.slots
                &&& t.objects[s.slots[w]] == s.objects[s.slots[w]]
                &&& !active(t, id, w)
            }
        }),
{
}

/// Once the active decoration object of a window is destroyed, a new one can
/// be created for that window.
pub proof fn lemma_reassociation(s: DecorationState, d: u64, id: u64, w: u64)
    requires
        state_wf(s),
        active(s, d, w),
        !destroy_spec(s, d).objects.contains_key(id),
    ensures
        state_wf(destroy_spec(s, d)),
        get_spec(destroy_spec(s, d), id, w).1 == Ok::<XdgDecorationRequest, AlreadyBound>(
            XdgDecorationRequest::NewToplevelDecoration { toplevel: w },
        ),
        active(get_spec(destroy_spec(s, d), id, w).0, id, w),
{
}

/// `get_toplevel_decoration`, then `set_mode(ServerSide)` and `unset_mode` on
/// the new object give exactly the events `NewToplevelDecoration`, `SetMode`
/// and `UnsetMode` for the window, in that order.
pub proof fn lemma_event_order(s: DecorationState, id: u64, w: u64)
    requires
        state_wf(s),
        !s.objects.contains_key(id),
        !s.slots.contains_key(w),
    ensures
        ({
            let (t, r) = get_spec(s, id, w);
            &&& r == Ok::<XdgDecorationRequest, AlreadyBound>(
                XdgDecorationRequest::NewToplevelDecoration { toplevel: w },
            )
            &&& request_spec(t, id, DecorationRequest::SetMode { mode: Mode::ServerSide })
                == Some(XdgDecorationRequest::SetMode { toplevel: w, mode: Mode::ServerSide })
            &&& request_spec(t, id, DecorationRequest::UnsetMode) == Some(
                XdgDecorationRequest::UnsetMode { toplevel: w },
            )
        }),
{
}

/// Running the destructor of an object twice is the same as running it once,
/// and leaves the slot of the window it decorated empty.
pub proof fn lemma_destroy_idempotent(s: DecorationState, id: u64, w: u64)
    requires
        state_wf(s),
    ensures
        destroy_spec(destroy_spec(s, id), id) == destroy_spec(s, id),
        active(s, id, w) ==> !destroy_spec(destroy_spec(s, id), id).slots.contains_key(w),
{
}

/// A refused `get_toplevel_decoration` yields no event, and the refused object
/// never relays a request.
pub proof fn lemma_no_event_on_failure(s: DecorationState, id: u64, w: u64, req: DecorationRequest)
    requires
        state_wf(s),
        !s.objects.contains_key(id),
        s.slots.contains_key(w),
    ensures
        get_spec(s, id, w).1 == Err::<XdgDecorationRequest, AlreadyBound>(AlreadyBound),
        request_spec(get_spec(s, id, w).0, id, req) == None::<XdgDecorationRequest>,
{
}

} // verus!
