use vstd::prelude::*;

verus! {

/// A window handle that is never null, kept as the handle's integer value.
#[derive(Debug, Clone, Copy)]
pub struct NonNullHwnd {
    raw: isize,
}

impl View for NonNullHwnd {
    type V = isize;

    closed spec fn view(&self) -> isize {
        self.raw
    }
}

impl NonNullHwnd {
    /// The handle's value is never zero.
    #[verifier::type_invariant]
    spec fn non_null(self) -> bool {
        self.raw != 0
    }

    /// Wraps `raw` when it is not null.
    pub fn new(raw: isize) -> (r: Option<Self>)
        ensures
            r is Some <==> raw != 0,
            r matches Some(h) ==> h@ == raw,
    {
        if raw != 0 {
            Some(NonNullHwnd { raw })
        } else {
            None
        }
    }

    /// The handle's value.
    pub fn hwnd(self) -> (r: isize)
        ensures
            r == self@,
            r != 0,
    {
        proof {
            use_type_invariant(&self);
        }
        self.raw
    }

    /// The handle's value, which is known to be non-zero.
    pub fn as_non_zero_isize(self) -> (r: isize)
        ensures
            r == self@,
            r != 0,
    {
        proof {
            use_type_invariant(&self);
        }
        self.raw
    }
}

} // verus!
