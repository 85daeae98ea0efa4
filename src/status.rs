use vstd::prelude::*;

verus! {

/// Status codes reported across the session boundary.
///
/// Setters report `Success` or `Fail`; each getter has a failure marker of its own,
/// returned in place of the field when the handle does not refer to a session.
#[derive(PartialEq, Eq, Structural, Debug, Clone, Copy)]
pub enum SessionStatusCode {
    Success,
    Fail,
    UidFail,
    PidFail,
    FdFail,
    TokenTypeFail,
    ModuleTypeFail,
    CloseFail,
}

impl SessionStatusCode {
    /// The integer that stands for this status at the boundary.
    pub open spec fn code_spec(self) -> i32 {
        match self {
            SessionStatusCode::Success => 0i32,
            SessionStatusCode::Fail => -1i32,
            SessionStatusCode::UidFail => -2i32,
            SessionStatusCode::PidFail => -3i32,
            SessionStatusCode::FdFail => -4i32,
            SessionStatusCode::TokenTypeFail => -5i32,
            SessionStatusCode::ModuleTypeFail => -6i32,
            SessionStatusCode::CloseFail => -7i32,
        }
    }

    #[verifier::when_used_as_spec(code_spec)]
    pub fn code(self) -> (r: i32)
        ensures
            r == self.code_spec(),
    {
        match self {
            SessionStatusCode::Success => 0,
            SessionStatusCode::Fail => -1,
            SessionStatusCode::UidFail => -2,
            SessionStatusCode::PidFail => -3,
            SessionStatusCode::FdFail => -4,
            SessionStatusCode::TokenTypeFail => -5,
            SessionStatusCode::ModuleTypeFail => -6,
            SessionStatusCode::CloseFail => -7,
        }
    }
}

/// Distinct statuses have distinct codes.
pub proof fn codes_are_distinct(a: SessionStatusCode, b: SessionStatusCode)
    ensures
        a.code() == b.code() <==> a == b,
{
}

} // verus!
