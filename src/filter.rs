use vstd::prelude::*;
use crate::generic::{arity, combine, combined, one, one_of, Func, HList, Side, Value};
use crate::reject::Rejection;
use crate::route::Route;
use crate::filters::any;

verus! {

/// What every filter does: read the request, move its cursor, and either extract a
/// tuple or reject.
pub trait FilterBase {
    /// The outcome of filtering `route`, and where the cursor ends up.
    spec fn run(&self, route: Route) -> (Result<HList, Rejection>, usize);

    fn filter(&self, route: &mut Route) -> (r: Result<HList, Rejection>)
        ensures
            r == self.run(*old(route)).0,
            *final(route) == old(route).at(self.run(*old(route)).1),
    ;

    /// Passes this filter's rejection through `fun`.
    fn map_err<F: Func<Rejection, Rejection>>(self, fun: F) -> (r: MapErr<Self, F>) where
        Self: Sized,
        ensures
            r.filter == self,
            r.callback == fun,
    {
        MapErr { filter: self, callback: fun }
    }

    /// Sees this filter, which extracts nothing or only the unit value, as one
    /// extracting nothing.
    fn unit(self) -> (r: Unit<Self>) where
        Self: Sized,
        requires
            forall|route: Route|
                (#[trigger] self.run(route)).0 is Ok ==> (self.run(route).0->Ok_0 == one(Value::Unit)
                    || self.run(route).0->Ok_0 == HList::Nil),
        ensures
            r.filter == self,
    {
        Unit { filter: self }
    }
}

/// The ways of composing filters.
pub trait Filter: FilterBase + Sized {
    /// Requires both filters, joining their extracted tuples.
    fn and<U: FilterBase>(self, other: U) -> (r: And<Self, U>)
        ensures
            r.first == self,
            r.second == other,
    {
        And { first: self, second: other }
    }

    /// Tries this filter, or else the other one.
    fn or<U: FilterBase>(self, other: U) -> (r: Or<Self, U>)
        ensures
            r.first == self,
            r.second == other,
    {
        Or { first: self, second: other }
    }

    /// Passes the extracted tuple through `fun`, which takes as many values as this
    /// filter extracts.
    fn map<F: Func<HList, Value>>(self, fun: F) -> (r: Mapped<Self, F>)
        requires
            extracts_arity(self, fun.params()),
        ensures
            r.filter == self,
            r.callback == fun,
    {
        Mapped { filter: self, callback: fun }
    }

    /// Passes the extracted tuple through `fun`, which may reject and takes as many
    /// values as this filter extracts.
    fn and_then<F: Func<HList, Result<Value, Rejection>>>(self, fun: F) -> (r: AndThen<Self, F>)
        requires
            extracts_arity(self, fun.params()),
        ensures
            r.filter == self,
            r.callback == fun,
    {
        AndThen { filter: self, callback: fun }
    }

    /// Hands a rejection to `fun`, which may extract a tuple of the same arity instead.
    fn or_else<F: Func<Rejection, Result<HList, Rejection>>>(self, fun: F) -> (r: OrElse<Self, F>)
        requires
            forall|route: Route, e: Rejection|
                (#[trigger] self.run(route)).0 is Ok && (#[trigger] fun.spec_call(e)) is Ok
                    ==> arity(fun.spec_call(e)->Ok_0) == arity(self.run(route).0->Ok_0),
        ensures
            r.filter == self,
            r.callback == fun,
    {
        OrElse { filter: self, callback: fun }
    }

    /// Hands a rejection to `fun`, which may extract a value of its own instead.
    fn recover<F: Func<Rejection, Result<Value, Rejection>>>(self, fun: F) -> (r: Recover<Self, F>)
        ensures
            r.filter == self,
            r.callback == fun,
    {
        Recover { filter: self, callback: fun }
    }

    /// Sees a filter extracting `(Either<T, T>,)` as one extracting `T`.
    fn unify(self) -> (r: Unify<Self>)
        requires
            extracts_tagged(self),
        ensures
            r.filter == self,
    {
        Unify { filter: self }
    }

    /// Hands this filter to a wrapper, which yields the filter that stands in its place.
    fn with<W: Wrap<Self>>(self, wrapper: W) -> (r: W::Wrapped)
        ensures
            r == wrapper.spec_wrap(self),
    {
        wrapper.wrap(self)
    }
}

/// A decorator that puts a filter of its own around a given filter, for work before
/// and after it, without depending on what that filter extracts.
pub trait Wrap<F: FilterBase> {
    type Wrapped: FilterBase;

    /// The filter that `wrap` yields.
    spec fn spec_wrap(&self, filter: F) -> Self::Wrapped;

    fn wrap(self, filter: F) -> (r: Self::Wrapped)
        ensures
            r == self.spec_wrap(filter),
    ;
}

/// The wrapper that adds nothing: the wrapped filter extracts and rejects exactly
/// as the filter it was given.
#[derive(Clone, Copy)]
pub struct Identity;

impl<F: FilterBase> Wrap<F> for Identity {
    type Wrapped = F;

    open spec fn spec_wrap(&self, filter: F) -> F {
        filter
    }

    fn wrap(self, filter: F) -> (r: F) {
        filter
    }
}

impl<T: FilterBase> Filter for T {
}

/// A filter that can be duplicated.
pub trait FilterClone: Filter + Clone {
}

impl<T: Filter + Clone> FilterClone for T {
}

/// Runs a filter from outside its own module, on an empty request.
pub fn __warp_filter_compilefail_doctest() {
    let mut route = Route::new(Vec::new(), Vec::new());
    let _ = any().filter(&mut route);
}

/// Both filters in turn; the second reads the request where the first left it.
pub struct And<T, U> {
    pub first: T,
    pub second: U,
}

impl<T: FilterBase, U: FilterBase> FilterBase for And<T, U> {
    open spec fn run(&self, route: Route) -> (Result<HList, Rejection>, usize) {
        let (a, i) = self.first.run(route);
        match a {
            Err(e) => (Err(e), i),
            Ok(x) => {
                let (b, j) = self.second.run(route.at(i));
                match b {
                    Err(e) => (Err(e), j),
                    Ok(y) => (Ok(combined(x, y)), j),
                }
            },
        }
    }

    fn filter(&self, route: &mut Route) -> (r: Result<HList, Rejection>) {
        match self.first.filter(route) {
            Err(e) => Err(e),
            Ok(x) => match self.second.filter(route) {
                Err(e) => Err(e),
                Ok(y) => Ok(combine(x, y)),
            },
        }
    }
}

/// The first filter, or else the second from the same starting point.
pub struct Or<T, U> {
    pub first: T,
    pub second: U,
}

impl<T: FilterBase, U: FilterBase> FilterBase for Or<T, U> {
    open spec fn run(&self, route: Route) -> (Result<HList, Rejection>, usize) {
        let (a, i) = self.first.run(route);
        match a {
            Ok(x) => (Ok(one(Value::Either(Side::Left, Box::new(x)))), i),
            Err(ea) => {
                let (b, j) = self.second.run(route);
                match b {
                    Ok(y) => (Ok(one(Value::Either(Side::Right, Box::new(y)))), j),
                    Err(eb) => (Err(Rejection::preferred(ea, eb)), j),
                }
            },
        }
    }

    fn filter(&self, route: &mut Route) -> (r: Result<HList, Rejection>) {
        let start = route.checkpoint();
        match self.first.filter(route) {
            Ok(x) => Ok(one_of(Value::Either(Side::Left, Box::new(x)))),
            Err(ea) => {
                route.restore(start);
                match self.second.filter(route) {
                    Ok(y) => Ok(one_of(Value::Either(Side::Right, Box::new(y)))),
                    Err(eb) => Err(ea.combine(eb)),
                }
            },
        }
    }
}

/// A filter whose extracted tuple is passed through a function.
pub struct Mapped<T, F> {
    pub filter: T,
    pub callback: F,
}

impl<T: FilterBase, F: Func<HList, Value>> FilterBase for Mapped<T, F> {
    open spec fn run(&self, route: Route) -> (Result<HList, Rejection>, usize) {
        let (a, i) = self.filter.run(route);
        match a {
            Ok(x) => (Ok(one(self.callback.spec_call(x))), i),
            Err(e) => (Err(e), i),
        }
    }

    fn filter(&self, route: &mut Route) -> (r: Result<HList, Rejection>) {
        match self.filter.filter(route) {
            Ok(x) => Ok(one_of(self.callback.call(x))),
            Err(e) => Err(e),
        }
    }
}

/// A filter followed by a fallible function of its extracted tuple.
pub struct AndThen<T, F> {
    pub filter: T,
    pub callback: F,
}

impl<T: FilterBase, F: Func<HList, Result<Value, Rejection>>> FilterBase for AndThen<T, F> {
    open spec fn run(&self, route: Route) -> (Result<HList, Rejection>, usize) {
        let (a, i) = self.filter.run(route);
        match a {
            Ok(x) => match self.callback.spec_call(x) {
                Ok(v) => (Ok(one(v)), i),
                Err(e) => (Err(e), i),
            },
            Err(e) => (Err(e), i),
        }
    }

    fn filter(&self, route: &mut Route) -> (r: Result<HList, Rejection>) {
        match self.filter.filter(route) {
            Ok(x) => match self.callback.call(x) {
                Ok(v) => Ok(one_of(v)),
                Err(e) => Err(e),
            },
            Err(e) => Err(e),
        }
    }
}

/// A filter whose rejection is handed to a function that may yield a tuple of the
/// same shape instead.
pub struct OrElse<T, F> {
    pub filter: T,
    pub callback: F,
}

impl<T: FilterBase, F: Func<Rejection, Result<HList, Rejection>>> FilterBase for OrElse<T, F> {
    open spec fn run(&self, route: Route) -> (Result<HList, Rejection>, usize) {
        let (a, i) = self.filter.run(route);
        match a {
            Ok(x) => (Ok(x), i),
            Err(e) => (self.callback.spec_call(e), i),
        }
    }

    fn filter(&self, route: &mut Route) -> (r: Result<HList, Rejection>) {
        match self.filter.filter(route) {
            Ok(x) => Ok(x),
            Err(e) => self.callback.call(e),
        }
    }
}

/// A filter whose rejection is handed to a function that may yield a value of
/// another shape; the result tells the two apart by its tag.
pub struct Recover<T, F> {
    pub filter: T,
    pub callback: F,
}

impl<T: FilterBase, F: Func<Rejection, Result<Value, Rejection>>> FilterBase for Recover<T, F> {
    open spec fn run(&self, route: Route) -> (Result<HList, Rejection>, usize) {
        let (a, i) = self.filter.run(route);
        match a {
            Ok(x) => (Ok(one(Value::Either(Side::Left, Box::new(x)))), i),
            Err(e) => match self.callback.spec_call(e) {
                Ok(v) => (Ok(one(Value::Either(Side::Right, Box::new(one(v))))), i),
                Err(e2) => (Err(e2), i),
            },
        }
    }

    fn filter(&self, route: &mut Route) -> (r: Result<HList, Rejection>) {
        match self.filter.filter(route) {
            Ok(x) => Ok(one_of(Value::Either(Side::Left, Box::new(x)))),
            Err(e) => match self.callback.call(e) {
                Ok(v) => Ok(one_of(Value::Either(Side::Right, Box::new(one_of(v))))),
                Err(e2) => Err(e2),
            },
        }
    }
}

/// A filter whose rejection is passed through a function.
pub struct MapErr<T, F> {
    pub filter: T,
    pub callback: F,
}

impl<T: FilterBase, F: Func<Rejection, Rejection>> FilterBase for MapErr<T, F> {
    open spec fn run(&self, route: Route) -> (Result<HList, Rejection>, usize) {
        let (a, i) = self.filter.run(route);
        match a {
            Ok(x) => (Ok(x), i),
            Err(e) => (Err(self.callback.spec_call(e)), i),
        }
    }

    fn filter(&self, route: &mut Route) -> (r: Result<HList, Rejection>) {
        match self.filter.filter(route) {
            Ok(x) => Ok(x),
            Err(e) => Err(self.callback.call(e)),
        }
    }
}

/// Whether every tuple that `f` extracts, from any request, has `n` elements.
pub open spec fn extracts_arity<T: FilterBase>(f: T, n: nat) -> bool {
    forall|route: Route| (#[trigger] f.run(route)).0 is Ok ==> arity(f.run(route).0->Ok_0) == n
}

/// Whether a tuple is a single tagged union, `(Either<L, R>,)`.
pub open spec fn is_tagged(h: HList) -> bool {
    match h {
        HList::Cons(Value::Either(_, _), rest) => *rest == HList::Nil,
        _ => false,
    }
}

/// Whether every tuple that `f` extracts, from any request, is a single tagged union.
pub open spec fn extracts_tagged<T: FilterBase>(f: T) -> bool {
    forall|route: Route| (#[trigger] f.run(route)).0 is Ok ==> is_tagged(f.run(route).0->Ok_0)
}

/// The tuple inside a one-element tuple that holds a tagged union, whichever its
/// tag. `unify` is only built over filters that extract such a tuple; on any other
/// tuple this is the tuple itself, so that the function is total.
pub open spec fn unified(h: HList) -> HList {
    match h {
        HList::Cons(Value::Either(_, t), rest) => if *rest == HList::Nil {
            *t
        } else {
            h
        },
        _ => h,
    }
}

/// A filter extracting `(Either<T, T>,)`, seen as one extracting `T`.
pub struct Unify<T> {
    pub filter: T,
}

impl<T: FilterBase> FilterBase for Unify<T> {
    open spec fn run(&self, route: Route) -> (Result<HList, Rejection>, usize) {
        let (a, i) = self.filter.run(route);
        match a {
            Ok(x) => (Ok(unified(x)), i),
            Err(e) => (Err(e), i),
        }
    }

    fn filter(&self, route: &mut Route) -> (r: Result<HList, Rejection>) {
        match self.filter.filter(route) {
            Ok(x) => Ok(unify_tuple(x)),
            Err(e) => Err(e),
        }
    }
}

/// Collapses a one-element tuple holding a tagged union into the tuple it tags.
pub fn unify_tuple(h: HList) -> (r: HList)
    ensures
        r == unified(h),
{
    match h {
        HList::Cons(v, rest) => match v {
            Value::Either(side, t) => match *rest {
                HList::Nil => *t,
                rest => HList::Cons(Value::Either(side, t), Box::new(rest)),
            },
            v => HList::Cons(v, rest),
        },
        HList::Nil => HList::Nil,
    }
}

/// The empty tuple in place of `((),)`; the empty tuple stays as it is. `unit` is
/// only built over filters that extract one of these; on any other tuple this is
/// the tuple itself, so that the function is total.
pub open spec fn unit_of(h: HList) -> HList {
    if h == one(Value::Unit) {
        HList::Nil
    } else {
        h
    }
}

/// A filter extracting `((),)`, seen as one extracting nothing.
pub struct Unit<T> {
    pub filter: T,
}

impl<T: FilterBase> FilterBase for Unit<T> {
    open spec fn run(&self, route: Route) -> (Result<HList, Rejection>, usize) {
        let (a, i) = self.filter.run(route);
        match a {
            Ok(x) => (Ok(unit_of(x)), i),
            Err(e) => (Err(e), i),
        }
    }

    fn filter(&self, route: &mut Route) -> (r: Result<HList, Rejection>) {
        match self.filter.filter(route) {
            Ok(x) => Ok(unit_tuple(x)),
            Err(e) => Err(e),
        }
    }
}

/// Drops the unit value of `((),)`.
pub fn unit_tuple(h: HList) -> (r: HList)
    ensures
        r == unit_of(h),
{
    match h {
        HList::Cons(v, rest) => match v {
            Value::Unit => match *rest {
                HList::Nil => HList::Nil,
                rest => HList::Cons(Value::Unit, Box::new(rest)),
            },
            v => HList::Cons(v, rest),
        },
        HList::Nil => HList::Nil,
    }
}

} // verus!
