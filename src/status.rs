use vstd::prelude::*;

verus! {

/// The raw code of the single success status.
pub const SUCCESS_CODE: i32 = 0;

/// A status code returned by a native call: exactly one code means success,
/// every other code is a distinct failure.
#[derive(Clone, Copy, Debug, PartialEq, Eq, Structural)]
pub struct Status {
    pub raw: i32,
}

impl Status {
    pub open spec fn spec_is_success(self) -> bool {
        self.raw == SUCCESS_CODE
    }

    /// Wraps a raw code as returned across the native boundary.
    pub fn from_raw(raw: i32) -> (r: Status)
        ensures
            r.raw == raw,
    {
        Status { raw }
    }

    /// The success status.
    pub fn success() -> (r: Status)
        ensures
            r.spec_is_success(),
    {
        Status { raw: SUCCESS_CODE }
    }

    pub fn as_raw(&self) -> (r: i32)
        ensures
            r == self.raw,
    {
        self.raw
    }

    pub fn is_success(&self) -> (r: bool)
        ensures
            r == self.spec_is_success(),
    {
        self.raw == SUCCESS_CODE
    }
}

/// What a call that produced `value` with status `status` amounts to.
pub open spec fn spec_result<T>(status: Status, value: T) -> Result<T, Status> {
    if status.spec_is_success() {
        Ok(value)
    } else {
        Err(status)
    }
}

/// Translates a status code into a result: the success code yields `value`,
/// every other code yields a failure carrying that exact code.
pub fn result_from_status<T>(status: Status, value: T) -> (r: Result<T, Status>)
    ensures
        r == spec_result(status, value),
        r is Ok <==> status.raw == SUCCESS_CODE,
        r matches Err(e) ==> e == status,
{
    if status.is_success() {
        Ok(value)
    } else {
        Err(status)
    }
}

} // verus!
