//! The status code of a response.

use vstd::prelude::*;

verus! {

/// An HTTP status code a response carries: a code in the standard numeric
/// range. The host's "no status" sentinel and out-of-range values have no
/// `Status`.
#[derive(Clone, Copy, Debug, PartialEq, Eq, Structural)]
pub struct Status {
    code: i32,
}

impl Status {
    /// The numeric code.
    pub closed spec fn spec_code(self) -> i32 {
        self.code
    }

    /// The code lies in the standard status range.
    pub open spec fn wf(self) -> bool {
        100 <= self.spec_code() <= 599
    }

    /// Wraps a raw status value the host reported, if it lies in the
    /// standard range.
    pub fn try_from_code(code: i32) -> (r: Option<Status>)
        ensures
            100 <= code <= 599 ==> ({
                &&& r matches Some(st)
                &&& st.spec_code() == code
            }),
            !(100 <= code <= 599) ==> r is None,
    {
        if 100 <= code && code <= 599 {
            Some(Status { code })
        } else {
            None
        }
    }

    /// The numeric code.
    pub fn code(&self) -> (r: i32)
        ensures
            r == self.spec_code(),
    {
        self.code
    }
}

} // verus!
