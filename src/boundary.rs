//! The session's flat boundary surface. A handle is `None` where a foreign
//! caller passed a null pointer; every operation checks it before use.
use vstd::prelude::*;
use crate::session::{send_plan, Field, SendAction, SessionView, StreamSession, UNSET};
use crate::status::SessionStatusCode;

verus! {

/// Allocates a new open session with every field unset.
#[allow(non_snake_case)]
pub fn StreamSessionCreate() -> (r: Box<StreamSession>)
    ensures
        (*r)@ == SessionView::initial(UNSET),
{
    Box::new(StreamSession::new(UNSET))
}

/// Releases a session. A null handle is a no-op. The descriptor is not
/// closed here: only `StreamSessionClose` gives it up.
#[allow(non_snake_case)]
pub fn StreamSessionDelete(raw: Option<Box<StreamSession>>) {
    match raw {
        Some(_session) => {},
        None => {},
    }
}

/// Sets the owner's uid. Reports `Fail` and changes nothing on a null handle.
#[allow(non_snake_case)]
pub fn StreamSessionSetUid(object: Option<&mut StreamSession>, uid: i32) -> (r: i32)
    ensures
        match object {
            Some(s) => r == SessionStatusCode::Success.code() && final(s)@ == s@.set(Field::Uid, uid),
            None => r == SessionStatusCode::Fail.code(),
        },
{
    match object {
        Some(obj) => {
            obj.set_uid(uid);
            SessionStatusCode::Success.code()
        },
        None => SessionStatusCode::Fail.code(),
    }
}

/// Binds a descriptor to the session. Reports `Fail` on a null handle.
#[allow(non_snake_case)]
pub fn StreamSessionSetFd(object: Option<&mut StreamSession>, fd: i32) -> (r: i32)
    ensures
        match object {
            Some(s) => r == SessionStatusCode::Success.code() && final(s)@ == s@.set(Field::Descriptor, fd),
            None => r == SessionStatusCode::Fail.code(),
        },
{
    match object {
        Some(obj) => {
            obj.set_fd(fd);
            SessionStatusCode::Success.code()
        },
        None => SessionStatusCode::Fail.code(),
    }
}

/// Sets the peer's pid. Reports `Fail` and changes nothing on a null handle.
#[allow(non_snake_case)]
pub fn StreamSessionSetPid(object: Option<&mut StreamSession>, pid: i32) -> (r: i32)
    ensures
        match object {
            Some(s) => r == SessionStatusCode::Success.code() && final(s)@ == s@.set(Field::Pid, pid),
            None => r == SessionStatusCode::Fail.code(),
        },
{
    match object {
        Some(obj) => {
            obj.set_pid(pid);
            SessionStatusCode::Success.code()
        },
        None => SessionStatusCode::Fail.code(),
    }
}

/// The owner's uid, or the `UidFail` code on a null handle.
#[allow(non_snake_case)]
pub fn StreamSessionGetUid(object: Option<&StreamSession>) -> (r: i32)
    ensures
        match object {
            Some(s) => r == s@.uid,
            None => r == SessionStatusCode::UidFail.code(),
        },
{
    match object {
        Some(obj) => obj.uid(),
        None => SessionStatusCode::UidFail.code(),
    }
}

/// The peer's pid, or the `PidFail` code on a null handle.
#[allow(non_snake_case)]
pub fn StreamSessionGetPid(object: Option<&StreamSession>) -> (r: i32)
    ensures
        match object {
            Some(s) => r == s@.pid,
            None => r == SessionStatusCode::PidFail.code(),
        },
{
    match object {
        Some(obj) => obj.pid(),
        None => SessionStatusCode::PidFail.code(),
    }
}

/// The bound descriptor, or the `FdFail` code on a null handle.
#[allow(non_snake_case)]
pub fn StreamSessionGetFd(object: Option<&StreamSession>) -> (r: i32)
    ensures
        match object {
            Some(s) => r == s@.fd,
            None => r == SessionStatusCode::FdFail.code(),
        },
{
    match object {
        Some(obj) => obj.session_fd(),
        None => SessionStatusCode::FdFail.code(),
    }
}

/// Sets the peer's trust classification. Reports `Fail` on a null handle.
#[allow(non_snake_case)]
pub fn StreamSessionSetTokenType(object: Option<&mut StreamSession>, style: i32) -> (r: i32)
    ensures
        match object {
            Some(s) => r == SessionStatusCode::Success.code() && final(s)@ == s@.set(Field::TokenType, style),
            None => r == SessionStatusCode::Fail.code(),
        },
{
    match object {
        Some(obj) => {
            obj.set_token_type(style);
            SessionStatusCode::Success.code()
        },
        None => SessionStatusCode::Fail.code(),
    }
}

/// The peer's trust classification, or the `TokenTypeFail` code on a null handle.
#[allow(non_snake_case)]
pub fn StreamSessionGetTokenType(object: Option<&StreamSession>) -> (r: i32)
    ensures
        match object {
            Some(s) => r == s@.token_type,
            None => r == SessionStatusCode::TokenTypeFail.code(),
        },
{
    match object {
        Some(obj) => obj.token_type(),
        None => SessionStatusCode::TokenTypeFail.code(),
    }
}

/// The subsystem that created the session, or the `ModuleTypeFail` code on a
/// null handle.
#[allow(non_snake_case)]
pub fn StreamSessionGetModuleType(object: Option<&StreamSession>) -> (r: i32)
    ensures
        match object {
            Some(s) => r == s@.module_type,
            None => r == SessionStatusCode::ModuleTypeFail.code(),
        },
{
    match object {
        Some(obj) => obj.module_type(),
        None => SessionStatusCode::ModuleTypeFail.code(),
    }
}

/// Closes the session. Returns the status, and the descriptor that the caller
/// must now release: the bound one on the first close of an open session,
/// never again after that.
#[allow(non_snake_case)]
pub fn StreamSessionClose(object: Option<&mut StreamSession>) -> (r: (i32, Option<i32>))
    ensures
        match object {
            Some(s) => r.0 == SessionStatusCode::Success.code() && r.1 == s@.released_on_close()
                && final(s)@ == s@.closed(),
            None => r.0 == SessionStatusCode::CloseFail.code() && r.1 is None,
        },
{
    match object {
        Some(obj) => {
            let release = obj.session_close();
            (SessionStatusCode::Success.code(), release)
        },
        None => (SessionStatusCode::CloseFail.code(), None),
    }
}

/// Decides what sending the first `size` bytes of `buf` asks of the transport.
/// A null handle, a closed session or one without a descriptor is rejected;
/// otherwise the whole payload, empty or not, goes to the bound descriptor.
/// `send_verdict` then turns the transport's answer into the result.
#[allow(non_snake_case)]
pub fn StreamSessionSendMsg(object: Option<&StreamSession>, buf: &[u8], size: usize) -> (r: SendAction)
    requires
        size <= buf@.len(),
    ensures
        match object {
            Some(s) => r == send_plan(s@, size),
            None => r == SendAction::Reject,
        },
{
    match object {
        Some(obj) => obj.session_send_msg(buf, size),
        None => SendAction::Reject,
    }
}

} // verus!
