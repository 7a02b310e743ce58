//! Terminal numbers and the errors of this crate.

use vstd::prelude::*;

verus! {

/// Why an operation did not succeed.
#[derive(Copy, Clone, Debug, PartialEq, Eq, Structural)]
pub enum VtError {
    /// A terminal number below zero was given.
    InvalidArgument,
    /// The kernel refused a request; the value is the OS error code.
    Io(i32),
    /// The order of requests and replies was broken: a reply did not answer
    /// the request that was pending, or an operation was begun while another
    /// was under way.
    Protocol,
}

/// Number of a virtual terminal: never negative.
#[derive(Copy, Clone, Debug, PartialEq, Eq, Structural)]
pub struct VtNumber(i32);

impl View for VtNumber {
    type V = int;

    closed spec fn view(&self) -> int {
        self.0 as int
    }
}

impl VtNumber {
    #[verifier::type_invariant]
    closed spec fn non_negative(self) -> bool {
        self.0 >= 0
    }

    /// The number as the kernel takes it.
    pub closed spec fn native(self) -> i32 {
        self.0
    }

    /// The number whose value is `number`.
    pub closed spec fn of(number: i32) -> VtNumber {
        VtNumber(number)
    }

    /// Creates the number `number`; a negative one is rejected.
    pub fn new(number: i32) -> (r: Result<VtNumber, VtError>)
        ensures
            number >= 0 ==> r == Ok::<VtNumber, VtError>(VtNumber::of(number)),
            number >= 0 ==> r->Ok_0@ == number,
            number < 0 ==> r == Err::<VtNumber, VtError>(VtError::InvalidArgument),
    {
        if number < 0 {
            Err(VtError::InvalidArgument)
        } else {
            Ok(VtNumber(number))
        }
    }

    /// The number as the kernel takes it.
    pub fn as_native(self) -> (r: i32)
        ensures
            r == self.native(),
            r == self@,
            r >= 0,
    {
        proof {
            use_type_invariant(&self);
        }
        self.0
    }
}

/// The number made of a value has that value.
pub proof fn made_number_has_its_value(number: i32)
    ensures
        VtNumber::of(number)@ == number,
        VtNumber::of(number).native() == number,
{
}

/// A number is told by its value: two numbers with the same value are the
/// same number, and a number is the one made of its value.
pub proof fn number_is_told_by_its_value(a: VtNumber, b: VtNumber)
    ensures
        a@ == a.native(),
        a@ == b@ <==> a == b,
        VtNumber::of(a.native()) == a,
{
}

/// Anything that stands for one terminal.
pub trait AsVtNumber {
    /// The terminal this value stands for.
    spec fn vt_number(&self) -> VtNumber;

    /// Returns the terminal this value stands for.
    fn as_vt_number(&self) -> (n: VtNumber)
        ensures
            n == self.vt_number(),
    ;
}

impl AsVtNumber for VtNumber {
    open spec fn vt_number(&self) -> VtNumber {
        *self
    }

    fn as_vt_number(&self) -> VtNumber {
        *self
    }
}

} // verus!
