use vstd::prelude::*;

verus! {

/// Value of an identity or classification field that has not been set.
pub const UNSET: i32 = -1;

/// Descriptor value meaning that no descriptor is bound to the session.
pub const NO_DESCRIPTOR: i32 = -1;

/// The fields of a session that callers may overwrite.
#[derive(PartialEq, Eq, Structural, Debug, Clone, Copy)]
pub enum Field {
    Uid,
    Pid,
    Descriptor,
    TokenType,
}

/// Abstract state of a session.
pub struct SessionView {
    pub uid: i32,
    pub pid: i32,
    pub fd: i32,
    pub token_type: i32,
    pub module_type: i32,
    pub open: bool,
}

impl SessionView {
    /// A freshly created session of the given subsystem: every field unset,
    /// no descriptor bound, and open.
    pub open spec fn initial(module_type: i32) -> SessionView {
        SessionView {
            uid: UNSET,
            pid: UNSET,
            fd: NO_DESCRIPTOR,
            token_type: UNSET,
            module_type,
            open: true,
        }
    }

    pub open spec fn get(self, f: Field) -> i32 {
        match f {
            Field::Uid => self.uid,
            Field::Pid => self.pid,
            Field::Descriptor => self.fd,
            Field::TokenType => self.token_type,
        }
    }

    /// The session with one field overwritten and everything else kept.
    pub open spec fn set(self, f: Field, v: i32) -> SessionView {
        match f {
            Field::Uid => SessionView { uid: v, ..self },
            Field::Pid => SessionView { pid: v, ..self },
            Field::Descriptor => SessionView { fd: v, ..self },
            Field::TokenType => SessionView { token_type: v, ..self },
        }
    }

    /// Whether a send may be handed to the transport at all.
    pub open spec fn can_send(self) -> bool {
        self.open && self.fd >= 0
    }

    /// The descriptor that closing this session releases: the bound one, and
    /// only while the session is still open.
    pub open spec fn released_on_close(self) -> Option<i32> {
        if self.open && self.fd >= 0 {
            Some(self.fd)
        } else {
            None
        }
    }

    /// The session after a close: closed for good, with no descriptor bound.
    pub open spec fn closed(self) -> SessionView {
        SessionView { open: false, fd: NO_DESCRIPTOR, ..self }
    }
}

/// What a send asks of the transport.
#[derive(PartialEq, Eq, Structural, Debug, Clone, Copy)]
pub enum SendAction {
    /// The send fails without touching any descriptor.
    Reject,
    /// Write the first `len` bytes of the buffer to `fd` as one message.
    Write { fd: i32, len: usize },
}

/// The transport work that a send on a session in state `m` asks for.
pub open spec fn send_plan(m: SessionView, size: usize) -> SendAction {
    if m.can_send() {
        SendAction::Write { fd: m.fd, len: size }
    } else {
        SendAction::Reject
    }
}

/// Whether a send succeeded, given the work asked of the transport and the
/// number of bytes it reports written (`None` for a transport error). Only a
/// whole message counts: a partial write is a failure.
pub open spec fn send_succeeds(action: SendAction, written: Option<usize>) -> bool {
    match action {
        SendAction::Reject => false,
        SendAction::Write { fd: _, len } => written == Some(len),
    }
}

/// Decides the outcome of a send once the transport has answered.
pub fn send_verdict(action: &SendAction, written: Option<usize>) -> (r: bool)
    ensures
        r == send_succeeds(*action, written),
{
    match action {
        SendAction::Reject => false,
        SendAction::Write { fd: _, len } => match written {
            Some(n) => n == *len,
            None => false,
        },
    }
}

/// A communication session: peer identity, classification, and the socket
/// descriptor it owns.
pub struct StreamSession {
    uid: i32,
    pid: i32,
    fd: i32,
    token_type: i32,
    module_type: i32,
    open: bool,
}

impl View for StreamSession {
    type V = SessionView;

    closed spec fn view(&self) -> SessionView {
        SessionView {
            uid: self.uid,
            pid: self.pid,
            fd: self.fd,
            token_type: self.token_type,
            module_type: self.module_type,
            open: self.open,
        }
    }
}

impl StreamSession {
    /// A new open session created by the given subsystem.
    pub fn new(module_type: i32) -> (r: StreamSession)
        ensures
            r@ == SessionView::initial(module_type),
    {
        StreamSession {
            uid: UNSET,
            pid: UNSET,
            fd: NO_DESCRIPTOR,
            token_type: UNSET,
            module_type,
            open: true,
        }
    }

    pub fn set_uid(&mut self, uid: i32)
        ensures
            final(self)@ == old(self)@.set(Field::Uid, uid),
    {
        self.uid = uid;
    }

    pub fn set_pid(&mut self, pid: i32)
        ensures
            final(self)@ == old(self)@.set(Field::Pid, pid),
    {
        self.pid = pid;
    }

    /// Binds a descriptor to the session, which owns it from then on.
    pub fn set_fd(&mut self, fd: i32)
        ensures
            final(self)@ == old(self)@.set(Field::Descriptor, fd),
    {
        self.fd = fd;
    }

    pub fn set_token_type(&mut self, token_type: i32)
        ensures
            final(self)@ == old(self)@.set(Field::TokenType, token_type),
    {
        self.token_type = token_type;
    }

    pub fn uid(&self) -> (r: i32)
        ensures
            r == self@.uid,
    {
        self.uid
    }

    pub fn pid(&self) -> (r: i32)
        ensures
            r == self@.pid,
    {
        self.pid
    }

    pub fn session_fd(&self) -> (r: i32)
        ensures
            r == self@.fd,
    {
        self.fd
    }

    pub fn token_type(&self) -> (r: i32)
        ensures
            r == self@.token_type,
    {
        self.token_type
    }

    pub fn module_type(&self) -> (r: i32)
        ensures
            r == self@.module_type,
    {
        self.module_type
    }

    pub fn is_open(&self) -> (r: bool)
        ensures
            r == self@.open,
    {
        self.open
    }

    /// Closes the session. Returns the descriptor that the caller must now
    /// release, if any; a session gives its descriptor up at most once.
    pub fn session_close(&mut self) -> (r: Option<i32>)
        ensures
            r == old(self)@.released_on_close(),
            final(self)@ == old(self)@.closed(),
    {
        let release = if self.open && self.fd >= 0 {
            Some(self.fd)
        } else {
            None
        };
        self.open = false;
        self.fd = NO_DESCRIPTOR;
        release
    }

    /// Decides what a send of the first `size` bytes of `buf` asks of the
    /// transport: a write to the bound descriptor while the session is open
    /// and has one, otherwise a rejection.
    pub fn session_send_msg(&self, buf: &[u8], size: usize) -> (r: SendAction)
        requires
            size <= buf@.len(),
        ensures
            r == send_plan(self@, size),
    {
        if self.open && self.fd >= 0 {
            SendAction::Write { fd: self.fd, len: size }
        } else {
            SendAction::Reject
        }
    }
}

impl Default for StreamSession {
    /// A session of no particular subsystem.
    fn default() -> (r: StreamSession)
        ensures
            r@ == SessionView::initial(UNSET),
    {
        StreamSession::new(UNSET)
    }
}

} // verus!
