use vstd::prelude::*;

verus! {

/// Why a filter did not produce a value.
#[derive(PartialEq, Eq, Debug)]
pub enum Rejection {
    /// The filter does not apply to this request.
    NotFound,
    /// A required header is absent; holds the header's name.
    MissingHeader(String),
    /// A path parameter did not parse.
    InvalidParam,
    /// A rejection raised by the caller's own code.
    Custom(u64),
    /// Both branches of an alternative were rejected for concrete reasons: the
    /// earlier branch's rejection, then the later one's.
    Combined(Box<Rejection>, Box<Rejection>),
}

impl Rejection {
    /// Whether this rejection reports a concrete problem rather than a mere non-match.
    pub open spec fn is_specific(&self) -> bool {
        !(self is NotFound)
    }

    /// The rejection that an alternative reports when both branches were rejected:
    /// a non-match gives way to the other one, and two concrete rejections are
    /// both kept, in the order they were met.
    pub open spec fn preferred(first: Rejection, second: Rejection) -> Rejection {
        if !first.is_specific() {
            second
        } else if !second.is_specific() {
            first
        } else {
            Rejection::Combined(Box::new(first), Box::new(second))
        }
    }

    /// The rejection to report first: the latest concrete one that was met.
    pub open spec fn spec_primary(&self) -> Rejection
        decreases self,
    {
        match self {
            Rejection::Combined(_, second) => second.spec_primary(),
            _ => *self,
        }
    }

    pub fn not_found() -> (r: Rejection)
        ensures
            r == Rejection::NotFound,
    {
        Rejection::NotFound
    }

    pub fn custom(code: u64) -> (r: Rejection)
        ensures
            r == Rejection::Custom(code),
    {
        Rejection::Custom(code)
    }

    pub fn is_not_found(&self) -> (r: bool)
        ensures
            r == !self.is_specific(),
    {
        match self {
            Rejection::NotFound => true,
            _ => false,
        }
    }

    /// Unifies the rejections of two alternatives, `self` being the earlier one.
    pub fn combine(self, other: Rejection) -> (r: Rejection)
        ensures
            r == Rejection::preferred(self, other),
    {
        if self.is_not_found() {
            other
        } else if other.is_not_found() {
            self
        } else {
            Rejection::Combined(Box::new(self), Box::new(other))
        }
    }

    /// The rejection to report first.
    pub fn primary(&self) -> (r: &Rejection)
        ensures
            *r == self.spec_primary(),
        decreases self,
    {
        match self {
            Rejection::Combined(_, second) => (**second).primary(),
            _ => self,
        }
    }
}

} // verus!
