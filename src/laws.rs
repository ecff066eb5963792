use vstd::prelude::*;
use crate::filter::{extracts_tagged, And, FilterBase, Identity, Mapped, Or, Recover, Unify, Wrap};
use crate::generic::{arity, combined, elems, lemma_combined_elems, one, Func, HList, Side, Value};
use crate::reject::Rejection;
use crate::route::Route;

verus! {

/// When both filters succeed, `a.and(b)` extracts the elements of `a` followed by
/// those of `b`, so its arity is the sum of theirs; a side extracting nothing adds
/// nothing. `b` reads the request where `a` left the cursor.
pub proof fn and_concatenates<T: FilterBase, U: FilterBase>(a: T, b: U, route: Route)
    requires
        a.run(route).0 is Ok,
        b.run(route.at(a.run(route).1)).0 is Ok,
    ensures
        ({
            let x = a.run(route).0->Ok_0;
            let (rb, j) = b.run(route.at(a.run(route).1));
            let y = rb->Ok_0;
            &&& (And { first: a, second: b }).run(route) == (Ok::<HList, Rejection>(combined(x, y)), j)
            &&& elems(combined(x, y)) == elems(x) + elems(y)
            &&& arity(combined(x, y)) == arity(x) + arity(y)
        }),
{
    let x = a.run(route).0->Ok_0;
    let y = b.run(route.at(a.run(route).1)).0->Ok_0;
    lemma_combined_elems(x, y);
}

/// When `a` rejects, `a.and(b)` ends exactly as `a` did, whatever `b` is: `b` is
/// never consulted and the rejection is `a`'s own.
pub proof fn and_short_circuits<T: FilterBase, U: FilterBase>(a: T, b: U, route: Route)
    requires
        a.run(route).0 is Err,
    ensures
        (And { first: a, second: b }).run(route) == a.run(route),
{
}

/// When `a` rejects and `b` succeeds on the original request, `a.or(b)` succeeds
/// with `b`'s tuple tagged `Right`, exactly as `b` alone would, cursor included.
pub proof fn or_resets<T: FilterBase, U: FilterBase>(a: T, b: U, route: Route)
    requires
        a.run(route).0 is Err,
        b.run(route).0 is Ok,
    ensures
        (Or { first: a, second: b }).run(route) == (
            Ok::<HList, Rejection>(one(Value::Either(Side::Right, Box::new(b.run(route).0->Ok_0)))),
            b.run(route).1,
        ),
{
}

/// Unifying an alternative between a filter and itself succeeds exactly when the
/// filter does, with the same tuple and cursor, and unifying drops the tag of
/// either side.
pub proof fn unify_or_self<T: FilterBase>(a: T, route: Route)
    ensures
        a.run(route).0 is Ok ==> (Unify { filter: Or { first: a, second: a } }).run(route)
            == a.run(route),
        (Unify { filter: Or { first: a, second: a } }).run(route).0 is Ok <==> a.run(route).0 is Ok,
        forall|t: HList|
            crate::filter::unified(#[trigger] one(Value::Either(Side::Left, Box::new(t)))) == t,
        forall|t: HList|
            crate::filter::unified(#[trigger] one(Value::Either(Side::Right, Box::new(t)))) == t,
{
}

/// An alternative always extracts a single tagged union, so it can be unified.
pub proof fn or_extracts_tagged<T: FilterBase, U: FilterBase>(a: T, b: U)
    ensures
        extracts_tagged(Or { first: a, second: b }),
{
}

/// Wrapping with the wrapper that adds nothing leaves what the filter extracts,
/// how it rejects and where it leaves the cursor as they were.
pub proof fn identity_wrap_keeps_outcome<T: FilterBase>(a: T, route: Route)
    ensures
        Identity.spec_wrap(a).run(route) == a.run(route),
{
}

/// `a.map(f)` rejects exactly when `a` does, with the same rejection, and otherwise
/// extracts `f` of what `a` extracted; the cursor moves as under `a`.
pub proof fn map_is_pure<T: FilterBase, F: Func<HList, Value>>(a: T, f: F, route: Route)
    ensures
        ({
            let (ra, i) = a.run(route);
            let (rm, j) = (Mapped { filter: a, callback: f }).run(route);
            &&& j == i
            &&& (rm is Err <==> ra is Err)
            &&& ra is Err ==> rm == ra
            &&& ra is Ok ==> rm == Ok::<HList, Rejection>(one(f.spec_call(ra->Ok_0)))
        }),
{
}

/// `a.recover(f)` never rejects when `f` never does.
pub proof fn recover_is_total<T: FilterBase, F: Func<Rejection, Result<Value, Rejection>>>(
    a: T,
    f: F,
    route: Route,
)
    requires
        forall|e: Rejection| (#[trigger] f.spec_call(e)) is Ok,
    ensures
        (Recover { filter: a, callback: f }).run(route).0 is Ok,
{
    let e = a.run(route).0;
    if e is Err {
        assert(f.spec_call(e->Err_0) is Ok);
    }
}

} // verus!
