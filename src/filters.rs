use vstd::prelude::*;
use crate::filter::FilterBase;
use crate::generic::{one, one_of, Func, HList, Value};
use crate::reject::Rejection;
use crate::route::{header_of, Route};

verus! {

/// Whether every character is an ASCII digit.
pub open spec fn all_digits(s: Seq<char>) -> bool {
    forall|i: int| 0 <= i < s.len() ==> '0' <= #[trigger] s[i] <= '9'
}

/// The number that a string of decimal digits denotes.
pub open spec fn digits_value(s: Seq<char>) -> nat
    decreases s.len(),
{
    if s.len() == 0 {
        0
    } else {
        digits_value(s.drop_last()) * 10 + (s.last() as nat - '0' as nat) as nat
    }
}

/// The `u32` that a string denotes: an optional `+`, then at least one digit, with
/// a value that fits.
pub open spec fn u32_of(s: Seq<char>) -> Option<u32> {
    let d = if s.len() > 0 && s[0] == '+' {
        s.drop_first()
    } else {
        s
    };
    if d.len() > 0 && all_digits(d) && digits_value(d) <= u32::MAX {
        Some(digits_value(d) as u32)
    } else {
        None
    }
}

/// Relies on `str::parse::<u32>`: an optional `+` followed by decimal digits, whose
/// value fits in `u32`, is accepted; anything else is an error.
#[verifier::external_body]
fn parse_u32(s: &str) -> (r: Option<u32>)
    ensures
        r == u32_of(s@),
{
    s.parse::<u32>().ok()
}

/// Matches every request and extracts nothing.
#[derive(Clone, Copy)]
pub struct Any;

impl FilterBase for Any {
    open spec fn run(&self, route: Route) -> (Result<HList, Rejection>, usize) {
        (Ok(HList::Nil), route.index)
    }

    fn filter(&self, route: &mut Route) -> (r: Result<HList, Rejection>) {
        Ok(HList::Nil)
    }
}

pub fn any() -> (r: Any) {
    Any
}

/// Matches one path segment exactly and moves past it.
pub struct Path {
    pub segment: String,
}

impl FilterBase for Path {
    open spec fn run(&self, route: Route) -> (Result<HList, Rejection>, usize) {
        match route.current() {
            Some(s) => if s@ == self.segment@ {
                (Ok(HList::Nil), (route.index + 1) as usize)
            } else {
                (Err(Rejection::NotFound), route.index)
            },
            None => (Err(Rejection::NotFound), route.index),
        }
    }

    fn filter(&self, route: &mut Route) -> (r: Result<HList, Rejection>) {
        match route.segment() {
            Some(s) => if s == self.segment {
                route.advance();
                Ok(HList::Nil)
            } else {
                Err(Rejection::NotFound)
            },
            None => Err(Rejection::NotFound),
        }
    }
}

pub fn path(segment: &str) -> (r: Path)
    ensures
        r.segment@ == segment@,
{
    Path { segment: segment.to_owned() }
}

/// Extracts the current path segment as a `u32` and moves past it.
#[derive(Clone, Copy)]
pub struct Param;

impl FilterBase for Param {
    open spec fn run(&self, route: Route) -> (Result<HList, Rejection>, usize) {
        match route.current() {
            Some(s) => match u32_of(s@) {
                Some(n) => (Ok(one(Value::Num(n))), (route.index + 1) as usize),
                None => (Err(Rejection::InvalidParam), route.index),
            },
            None => (Err(Rejection::NotFound), route.index),
        }
    }

    fn filter(&self, route: &mut Route) -> (r: Result<HList, Rejection>) {
        match route.segment() {
            Some(s) => match parse_u32(s.as_str()) {
                Some(n) => {
                    route.advance();
                    Ok(one_of(Value::Num(n)))
                },
                None => Err(Rejection::InvalidParam),
            },
            None => Err(Rejection::NotFound),
        }
    }
}

pub fn param() -> (r: Param) {
    Param
}

/// Extracts the value of a header as text.
pub struct Header {
    pub name: String,
}

impl FilterBase for Header {
    open spec fn run(&self, route: Route) -> (Result<HList, Rejection>, usize) {
        match header_of(route.headers@, self.name@) {
            Some(v) => (Ok(one(Value::Text(v))), route.index),
            None => (Err(Rejection::MissingHeader(self.name)), route.index),
        }
    }

    fn filter(&self, route: &mut Route) -> (r: Result<HList, Rejection>) {
        match route.header(&self.name) {
            Some(v) => Ok(one_of(Value::Text(v))),
            None => Err(Rejection::MissingHeader(self.name.clone())),
        }
    }
}

pub fn header(name: &str) -> (r: Header)
    ensures
        r.name@ == name@,
{
    Header { name: name.to_owned() }
}

/// Rejects every request with a custom code.
#[derive(Clone, Copy)]
pub struct Fail {
    pub code: u64,
}

impl FilterBase for Fail {
    open spec fn run(&self, route: Route) -> (Result<HList, Rejection>, usize) {
        (Err(Rejection::Custom(self.code)), route.index)
    }

    fn filter(&self, route: &mut Route) -> (r: Result<HList, Rejection>) {
        Err(Rejection::Custom(self.code))
    }
}

pub fn fail(code: u64) -> (r: Fail)
    ensures
        r.code == code,
{
    Fail { code }
}

/// A callback of no arguments that yields the unit value.
#[derive(Clone, Copy)]
pub struct Empty;

impl Func<HList, Value> for Empty {
    open spec fn params(&self) -> nat {
        0
    }

    open spec fn spec_call(&self, args: HList) -> Value {
        Value::Unit
    }

    fn call(&self, args: HList) -> (r: Value) {
        Value::Unit
    }
}

/// A callback of one argument that yields that argument.
#[derive(Clone, Copy)]
pub struct Single;

impl Func<HList, Value> for Single {
    open spec fn params(&self) -> nat {
        1
    }

    open spec fn spec_call(&self, args: HList) -> Value {
        match args {
            HList::Cons(v, _) => v,
            HList::Nil => Value::Unit,
        }
    }

    fn call(&self, args: HList) -> (r: Value) {
        match args {
            HList::Cons(v, _) => v,
            HList::Nil => Value::Unit,
        }
    }
}

/// A callback of one argument that answers with a fixed status code, whatever the
/// argument is.
#[derive(Clone, Copy)]
pub struct Status {
    pub code: u32,
}

impl Func<HList, Value> for Status {
    open spec fn params(&self) -> nat {
        1
    }

    open spec fn spec_call(&self, args: HList) -> Value {
        Value::Num(self.code)
    }

    fn call(&self, args: HList) -> (r: Value) {
        Value::Num(self.code)
    }
}

impl Func<Rejection, Result<Value, Rejection>> for Status {
    open spec fn params(&self) -> nat {
        1
    }

    open spec fn spec_call(&self, args: Rejection) -> Result<Value, Rejection> {
        Ok(Value::Num(self.code))
    }

    fn call(&self, args: Rejection) -> (r: Result<Value, Rejection>) {
        Ok(Value::Num(self.code))
    }
}

/// A callback of one argument that accepts an extracted number up to `max` and rejects
/// anything else as an invalid parameter.
#[derive(Clone, Copy)]
pub struct Limit {
    pub max: u32,
}

impl Func<HList, Result<Value, Rejection>> for Limit {
    open spec fn params(&self) -> nat {
        1
    }

    open spec fn spec_call(&self, args: HList) -> Result<Value, Rejection> {
        match args {
            HList::Cons(Value::Num(n), _) => if n <= self.max {
                Ok(Value::Num(n))
            } else {
                Err(Rejection::InvalidParam)
            },
            _ => Err(Rejection::InvalidParam),
        }
    }

    fn call(&self, args: HList) -> (r: Result<Value, Rejection>) {
        match args {
            HList::Cons(Value::Num(n), _) => if n <= self.max {
                Ok(Value::Num(n))
            } else {
                Err(Rejection::InvalidParam)
            },
            _ => Err(Rejection::InvalidParam),
        }
    }
}

/// A callback that replaces any rejection with a custom one.
#[derive(Clone, Copy)]
pub struct Relabel {
    pub code: u64,
}

impl Func<Rejection, Rejection> for Relabel {
    open spec fn params(&self) -> nat {
        1
    }

    open spec fn spec_call(&self, args: Rejection) -> Rejection {
        Rejection::Custom(self.code)
    }

    fn call(&self, args: Rejection) -> (r: Rejection) {
        Rejection::Custom(self.code)
    }
}

/// A callback that turns a non-match into an empty extraction and keeps any other
/// rejection.
#[derive(Clone, Copy)]
pub struct Skip;

impl Func<Rejection, Result<HList, Rejection>> for Skip {
    open spec fn params(&self) -> nat {
        1
    }

    open spec fn spec_call(&self, args: Rejection) -> Result<HList, Rejection> {
        if args.is_specific() {
            Err(args)
        } else {
            Ok(HList::Nil)
        }
    }

    fn call(&self, args: Rejection) -> (r: Result<HList, Rejection>) {
        if args.is_not_found() {
            Ok(HList::Nil)
        } else {
            Err(args)
        }
    }
}

} // verus!
