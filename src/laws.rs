//! Properties of the session model that relate several operations.
use vstd::prelude::*;
use crate::session::{send_plan, send_succeeds, Field, SendAction, SessionView};

verus! {

/// Reading a field right after writing it gives back the written value.
pub proof fn get_after_set(m: SessionView, f: Field, v: i32)
    ensures
        m.set(f, v).get(f) == v,
{
}

/// Writing one field leaves every other field, the module type and the open
/// state as they were.
pub proof fn set_keeps_the_rest(m: SessionView, f: Field, g: Field, v: i32)
    ensures
        f != g ==> m.set(f, v).get(g) == m.get(g),
        m.set(f, v).module_type == m.module_type,
        m.set(f, v).open == m.open,
{
}

/// The module type fixed at construction survives every setter and a close.
pub proof fn module_type_is_fixed(module_type: i32, f: Field, v: i32)
    ensures
        SessionView::initial(module_type).set(f, v).module_type == module_type,
        SessionView::initial(module_type).closed().module_type == module_type,
{
}

/// Once a session is closed, every send fails without reaching the transport,
/// whatever the payload and whatever fields were written since.
pub proof fn send_after_close_fails(m: SessionView, f: Field, v: i32, size: usize, written: Option<usize>)
    ensures
        send_plan(m.closed(), size) == SendAction::Reject,
        !send_succeeds(send_plan(m.closed(), size), written),
        send_plan(m.closed().set(f, v), size) == SendAction::Reject,
        !send_succeeds(send_plan(m.closed().set(f, v), size), written),
{
}

/// A second close releases nothing and changes nothing.
pub proof fn close_releases_once(m: SessionView)
    ensures
        m.closed().released_on_close() is None,
        m.closed().closed() == m.closed(),
{
}

/// An empty send on an open session with a descriptor asks the transport for
/// an empty write, and succeeds when the transport accepts it.
pub proof fn empty_send_on_open_session(m: SessionView)
    requires
        m.open,
        m.fd >= 0,
    ensures
        send_plan(m, 0) == (SendAction::Write { fd: m.fd, len: 0 }),
        send_succeeds(send_plan(m, 0), Some(0usize)),
{
}

} // verus!
