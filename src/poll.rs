use vstd::prelude::*;
use crate::filter::{unified, unify_tuple, unit_of, unit_tuple, And, AndThen, FilterBase, MapErr, Mapped, Or, OrElse, Recover, Unify, Unit};
use crate::generic::{combine, combined, one, one_of, Func, HList, Side, Value};
use crate::reject::Rejection;
use crate::route::Route;

verus! {

/// Where an asynchronous conjunction stands between two suspensions.
#[derive(PartialEq, Eq, Debug)]
pub enum AndState {
    /// The first filter is pending.
    WaitingOnFirst,
    /// The first filter extracted this tuple; the second is pending.
    WaitingOnSecond(HList),
    Done,
}

/// What the driver of a conjunction does next.
#[derive(PartialEq, Eq, Debug)]
pub enum AndAction {
    /// Start the second filter on the cursor as the first left it.
    StartSecond,
    /// Complete with this outcome.
    Finish(Result<HList, Rejection>),
}

/// Where an asynchronous alternative stands between two suspensions.
#[derive(PartialEq, Eq, Debug)]
pub enum OrState {
    /// The first filter is pending.
    WaitingOnFirst,
    /// The first filter was rejected with this; the second is pending.
    WaitingOnSecond(Rejection),
    Done,
}

/// What the driver of an alternative does next.
#[derive(PartialEq, Eq, Debug)]
pub enum OrAction {
    /// Put the cursor back where the first filter started, then start the second.
    RestartSecond,
    /// Complete with this outcome.
    Finish(Result<HList, Rejection>),
}

/// The next state and action of a conjunction whose pending filter resolved to
/// `outcome`.
pub open spec fn and_next(state: AndState, outcome: Result<HList, Rejection>) -> (AndState, AndAction) {
    match (state, outcome) {
        (AndState::WaitingOnSecond(x), Ok(y)) => (AndState::Done, AndAction::Finish(Ok(combined(x, y)))),
        (AndState::WaitingOnFirst, Ok(x)) => (AndState::WaitingOnSecond(x), AndAction::StartSecond),
        (_, _) => (AndState::Done, AndAction::Finish(outcome)),
    }
}

/// The next state and action of an alternative whose pending filter resolved to
/// `outcome`.
pub open spec fn or_next(state: OrState, outcome: Result<HList, Rejection>) -> (OrState, OrAction) {
    match (state, outcome) {
        (OrState::WaitingOnSecond(_), Ok(y)) => (
            OrState::Done,
            OrAction::Finish(Ok(one(Value::Either(Side::Right, Box::new(y))))),
        ),
        (OrState::WaitingOnSecond(ea), Err(eb)) => (
            OrState::Done,
            OrAction::Finish(Err(Rejection::preferred(ea, eb))),
        ),
        (_, Ok(x)) => (OrState::Done, OrAction::Finish(Ok(one(Value::Either(Side::Left, Box::new(x)))))),
        (_, Err(e)) => (OrState::WaitingOnSecond(e), OrAction::RestartSecond),
    }
}

/// Advances a conjunction once the pending filter has resolved to `outcome`.
pub fn and_step(state: AndState, outcome: Result<HList, Rejection>) -> (r: (AndState, AndAction))
    requires
        !(state is Done),
    ensures
        r == and_next(state, outcome),
{
    match state {
        AndState::WaitingOnSecond(x) => match outcome {
            Ok(y) => (AndState::Done, AndAction::Finish(Ok(combine(x, y)))),
            Err(e) => (AndState::Done, AndAction::Finish(Err(e))),
        },
        _ => match outcome {
            Ok(x) => (AndState::WaitingOnSecond(x), AndAction::StartSecond),
            Err(e) => (AndState::Done, AndAction::Finish(Err(e))),
        },
    }
}

/// Advances an alternative once the pending filter has resolved to `outcome`.
pub fn or_step(state: OrState, outcome: Result<HList, Rejection>) -> (r: (OrState, OrAction))
    requires
        !(state is Done),
    ensures
        r == or_next(state, outcome),
{
    match state {
        OrState::WaitingOnSecond(ea) => match outcome {
            Ok(y) => (OrState::Done, OrAction::Finish(Ok(one_of(Value::Either(Side::Right, Box::new(y)))))),
            Err(eb) => (OrState::Done, OrAction::Finish(Err(ea.combine(eb)))),
        },
        _ => match outcome {
            Ok(x) => (OrState::Done, OrAction::Finish(Ok(one_of(Value::Either(Side::Left, Box::new(x)))))),
            Err(e) => (OrState::WaitingOnSecond(e), OrAction::RestartSecond),
        },
    }
}

/// Driving a conjunction from its start with what its filters resolve to (the
/// second started on the cursor the first left) finishes with the outcome of
/// `a.and(b)`, and starts the second filter exactly when the first succeeded.
pub proof fn and_steps_agree<T: FilterBase, U: FilterBase>(a: T, b: U, route: Route)
    ensures
        ({
            let (ra, i) = a.run(route);
            let first = and_next(AndState::WaitingOnFirst, ra);
            let whole = (And { first: a, second: b }).run(route).0;
            &&& (first.1 is StartSecond <==> ra is Ok)
            &&& first.1 is StartSecond ==> and_next(first.0, b.run(route.at(i)).0)
                == (AndState::Done, AndAction::Finish(whole))
            &&& first.1 is Finish ==> first == (AndState::Done, AndAction::Finish(whole))
        }),
{
}

/// Driving an alternative from its start with what its filters resolve to (the
/// second started from the original cursor) finishes with the outcome of
/// `a.or(b)`, and starts the second filter exactly when the first was rejected.
pub proof fn or_steps_agree<T: FilterBase, U: FilterBase>(a: T, b: U, route: Route)
    ensures
        ({
            let ra = a.run(route).0;
            let first = or_next(OrState::WaitingOnFirst, ra);
            let whole = (Or { first: a, second: b }).run(route).0;
            &&& (first.1 is RestartSecond <==> ra is Err)
            &&& first.1 is RestartSecond ==> or_next(first.0, b.run(route).0)
                == (OrState::Done, OrAction::Finish(whole))
            &&& first.1 is Finish ==> first == (OrState::Done, OrAction::Finish(whole))
        }),
{
}

/// What the driver of a combinator with a callback does once its filter resolved.
#[derive(PartialEq, Eq, Debug)]
pub enum Next<A> {
    /// Start the callback on this argument, and await what it returns.
    Call(A),
    /// Complete with this outcome, without calling back.
    Finish(Result<HList, Rejection>),
}

pub open spec fn and_then_first(outcome: Result<HList, Rejection>) -> Next<HList> {
    match outcome {
        Ok(x) => Next::Call(x),
        Err(e) => Next::Finish(Err(e)),
    }
}

pub open spec fn and_then_last(called: Result<Value, Rejection>) -> Result<HList, Rejection> {
    match called {
        Ok(v) => Ok(one(v)),
        Err(e) => Err(e),
    }
}

pub open spec fn or_else_first(outcome: Result<HList, Rejection>) -> Next<Rejection> {
    match outcome {
        Ok(x) => Next::Finish(Ok(x)),
        Err(e) => Next::Call(e),
    }
}

pub open spec fn recover_first(outcome: Result<HList, Rejection>) -> Next<Rejection> {
    match outcome {
        Ok(x) => Next::Finish(Ok(one(Value::Either(Side::Left, Box::new(x))))),
        Err(e) => Next::Call(e),
    }
}

pub open spec fn recover_last(called: Result<Value, Rejection>) -> Result<HList, Rejection> {
    match called {
        Ok(v) => Ok(one(Value::Either(Side::Right, Box::new(one(v))))),
        Err(e) => Err(e),
    }
}

/// Decides an `and_then` once its filter resolved: call back on success.
pub fn and_then_step(outcome: Result<HList, Rejection>) -> (r: Next<HList>)
    ensures
        r == and_then_first(outcome),
{
    match outcome {
        Ok(x) => Next::Call(x),
        Err(e) => Next::Finish(Err(e)),
    }
}

/// Completes an `and_then` once its callback's computation resolved.
pub fn and_then_finish(called: Result<Value, Rejection>) -> (r: Result<HList, Rejection>)
    ensures
        r == and_then_last(called),
{
    match called {
        Ok(v) => Ok(one_of(v)),
        Err(e) => Err(e),
    }
}

/// Decides an `or_else` once its filter resolved: call back on rejection; what
/// the callback's computation resolves to is the outcome.
pub fn or_else_step(outcome: Result<HList, Rejection>) -> (r: Next<Rejection>)
    ensures
        r == or_else_first(outcome),
{
    match outcome {
        Ok(x) => Next::Finish(Ok(x)),
        Err(e) => Next::Call(e),
    }
}

/// Decides a `recover` once its filter resolved: call back on rejection.
pub fn recover_step(outcome: Result<HList, Rejection>) -> (r: Next<Rejection>)
    ensures
        r == recover_first(outcome),
{
    match outcome {
        Ok(x) => Next::Finish(Ok(one_of(Value::Either(Side::Left, Box::new(x))))),
        Err(e) => Next::Call(e),
    }
}

/// Completes a `recover` once its callback's computation resolved.
pub fn recover_finish(called: Result<Value, Rejection>) -> (r: Result<HList, Rejection>)
    ensures
        r == recover_last(called),
{
    match called {
        Ok(v) => Ok(one_of(Value::Either(Side::Right, Box::new(one_of(v))))),
        Err(e) => Err(e),
    }
}

/// Driving an `and_then` with what its filter and its callback resolve to ends
/// with the outcome of `a.and_then(f)`; the callback is called exactly when the
/// filter succeeded, on what it extracted.
pub proof fn and_then_steps_agree<T: FilterBase, F: Func<HList, Result<Value, Rejection>>>(
    a: T,
    f: F,
    route: Route,
)
    ensures
        ({
            let ra = a.run(route).0;
            let whole = (AndThen { filter: a, callback: f }).run(route).0;
            match and_then_first(ra) {
                Next::Call(x) => ra == Ok::<HList, Rejection>(x) && and_then_last(f.spec_call(x)) == whole,
                Next::Finish(r) => ra is Err && r == whole,
            }
        }),
{
}

/// Driving an `or_else` with what its filter and its callback resolve to ends
/// with the outcome of `a.or_else(f)`; the callback is called exactly when the
/// filter was rejected, on the rejection.
pub proof fn or_else_steps_agree<T: FilterBase, F: Func<Rejection, Result<HList, Rejection>>>(
    a: T,
    f: F,
    route: Route,
)
    ensures
        ({
            let ra = a.run(route).0;
            let whole = (OrElse { filter: a, callback: f }).run(route).0;
            match or_else_first(ra) {
                Next::Call(e) => ra == Err::<HList, Rejection>(e) && f.spec_call(e) == whole,
                Next::Finish(r) => ra is Ok && r == whole,
            }
        }),
{
}

/// Driving a `recover` with what its filter and its callback resolve to ends with
/// the outcome of `a.recover(f)`; the callback is called exactly when the filter
/// was rejected, on the rejection.
pub proof fn recover_steps_agree<T: FilterBase, F: Func<Rejection, Result<Value, Rejection>>>(
    a: T,
    f: F,
    route: Route,
)
    ensures
        ({
            let ra = a.run(route).0;
            let whole = (Recover { filter: a, callback: f }).run(route).0;
            match recover_first(ra) {
                Next::Call(e) => ra == Err::<HList, Rejection>(e) && recover_last(f.spec_call(e)) == whole,
                Next::Finish(r) => ra is Ok && r == whole,
            }
        }),
{
}

/// The outcome of `map` once its filter resolved to `outcome`.
pub open spec fn mapped_outcome<F: Func<HList, Value>>(f: F, outcome: Result<HList, Rejection>) -> Result<HList, Rejection> {
    match outcome {
        Ok(x) => Ok(one(f.spec_call(x))),
        Err(e) => Err(e),
    }
}

/// The outcome of `map_err` once its filter resolved to `outcome`.
pub open spec fn map_err_outcome<F: Func<Rejection, Rejection>>(f: F, outcome: Result<HList, Rejection>) -> Result<HList, Rejection> {
    match outcome {
        Ok(x) => Ok(x),
        Err(e) => Err(f.spec_call(e)),
    }
}

/// The outcome of `unify` once its filter resolved to `outcome`.
pub open spec fn unify_outcome(outcome: Result<HList, Rejection>) -> Result<HList, Rejection> {
    match outcome {
        Ok(x) => Ok(unified(x)),
        Err(e) => Err(e),
    }
}

/// The outcome of `unit` once its filter resolved to `outcome`.
pub open spec fn unit_outcome(outcome: Result<HList, Rejection>) -> Result<HList, Rejection> {
    match outcome {
        Ok(x) => Ok(unit_of(x)),
        Err(e) => Err(e),
    }
}

/// Completes a `map` once its filter resolved.
pub fn map_finish<F: Func<HList, Value>>(f: &F, outcome: Result<HList, Rejection>) -> (r: Result<HList, Rejection>)
    ensures
        r == mapped_outcome(*f, outcome),
{
    match outcome {
        Ok(x) => Ok(one_of(f.call(x))),
        Err(e) => Err(e),
    }
}

/// Completes a `map_err` once its filter resolved.
pub fn map_err_finish<F: Func<Rejection, Rejection>>(f: &F, outcome: Result<HList, Rejection>) -> (r: Result<HList, Rejection>)
    ensures
        r == map_err_outcome(*f, outcome),
{
    match outcome {
        Ok(x) => Ok(x),
        Err(e) => Err(f.call(e)),
    }
}

/// Completes a `unify` once its filter resolved.
pub fn unify_finish(outcome: Result<HList, Rejection>) -> (r: Result<HList, Rejection>)
    ensures
        r == unify_outcome(outcome),
{
    match outcome {
        Ok(x) => Ok(unify_tuple(x)),
        Err(e) => Err(e),
    }
}

/// Completes a `unit` once its filter resolved.
pub fn unit_finish(outcome: Result<HList, Rejection>) -> (r: Result<HList, Rejection>)
    ensures
        r == unit_outcome(outcome),
{
    match outcome {
        Ok(x) => Ok(unit_tuple(x)),
        Err(e) => Err(e),
    }
}

/// Completing `map`, `map_err`, `unify` or `unit` with what the inner filter
/// resolves to gives the outcome of the combinator itself.
pub proof fn finishes_agree<T: FilterBase, F: Func<HList, Value>, G: Func<Rejection, Rejection>>(
    a: T,
    f: F,
    g: G,
    route: Route,
)
    ensures
        mapped_outcome(f, a.run(route).0) == (Mapped { filter: a, callback: f }).run(route).0,
        map_err_outcome(g, a.run(route).0) == (MapErr { filter: a, callback: g }).run(route).0,
        unify_outcome(a.run(route).0) == (Unify { filter: a }).run(route).0,
        unit_outcome(a.run(route).0) == (Unit { filter: a }).run(route).0,
{
}

} // verus!
