use warp::filter::{Filter, FilterBase, Identity};
use warp::filters::{any, fail, header, param, path, Empty, Single, Limit, Relabel, Skip, Status};
use warp::generic::{combine, tup_one, HList, Side, Value};
use warp::reject::Rejection;
use warp::route::Route;

fn request(segments: &[&str], headers: &[(&str, &str)]) -> Route {
    Route::new(
        segments.iter().map(|s| s.to_string()).collect(),
        headers
            .iter()
            .map(|(k, v)| (k.to_string(), v.to_string()))
            .collect(),
    )
}

fn tuple(values: Vec<Value>) -> HList {
    let mut h = HList::Nil;
    for v in values.into_iter().rev() {
        h = HList::Cons(v, Box::new(h));
    }
    h
}

fn tagged(side: Side, inner: HList) -> HList {
    tuple(vec![Value::Either(side, Box::new(inner))])
}

#[test]
fn unit_and_param_extract_one_value() {
    let mut route = request(&["users", "42"], &[]);
    let r = path("users").and(param()).filter(&mut route);
    assert_eq!(r, Ok(tuple(vec![Value::Num(42)])));
    assert_eq!(route.index, 2);
}

#[test]
fn and_keeps_order_of_both_sides() {
    let mut route = request(&["7", "x", "9"], &[]);
    let r = param().and(path("x")).and(param()).filter(&mut route);
    assert_eq!(r, Ok(tuple(vec![Value::Num(7), Value::Num(9)])));
}

#[test]
fn combine_concatenates_tuples() {
    let a = tuple(vec![Value::Num(1), Value::Unit]);
    let b = tuple(vec![Value::Num(2)]);
    assert_eq!(
        combine(a, b),
        tuple(vec![Value::Num(1), Value::Unit, Value::Num(2)])
    );
    assert_eq!(combine(HList::Nil, HList::Nil), HList::Nil);
}

#[test]
fn and_short_circuits_on_first_rejection() {
    let mut route = request(&["5"], &[]);
    let r = fail(3).and(param()).filter(&mut route);
    assert_eq!(r, Err(Rejection::Custom(3)));
    assert_eq!(route.index, 0);
}

#[test]
fn and_reports_second_rejection() {
    let mut route = request(&["a"], &[]);
    let r = path("a").and(path("b")).filter(&mut route);
    assert_eq!(r, Err(Rejection::NotFound));
    assert_eq!(route.index, 1);
}

#[test]
fn or_tries_second_from_the_start() {
    let mut route = request(&["a", "b"], &[]);
    let r = path("a").and(path("x")).or(path("a").and(path("b"))).filter(&mut route);
    assert_eq!(r, Ok(tagged(Side::Right, HList::Nil)));
    assert_eq!(route.index, 2);
}

#[test]
fn or_takes_first_success() {
    let mut route = request(&["12"], &[]);
    let r = param().or(path("12")).filter(&mut route);
    assert_eq!(r, Ok(tagged(Side::Left, tuple(vec![Value::Num(12)]))));
}

#[test]
fn or_prefers_specific_rejection() {
    let mut route = request(&["abc"], &[]);
    let r = param().or(path("zzz")).filter(&mut route);
    assert_eq!(r, Err(Rejection::InvalidParam));
    let mut route = request(&["abc"], &[]);
    let r = path("zzz").or(fail(8)).filter(&mut route);
    assert_eq!(r, Err(Rejection::Custom(8)));
    let mut route = request(&[], &[]);
    let r = fail(1).or(fail(2)).filter(&mut route);
    assert_eq!(
        r,
        Err(Rejection::Combined(
            Box::new(Rejection::Custom(1)),
            Box::new(Rejection::Custom(2))
        ))
    );
    let mut route = request(&[], &[]);
    let r = path("a").or(path("b")).filter(&mut route);
    assert_eq!(r, Err(Rejection::NotFound));
}

#[test]
fn header_alternatives_unify() {
    let mut route = request(&[], &[("x-forwarded-for", "1.2.3.4")]);
    let r = header("x-real-ip")
        .or(header("x-forwarded-for"))
        .unify()
        .filter(&mut route);
    assert_eq!(r, Ok(tuple(vec![Value::Text("1.2.3.4".to_string())])));
    let mut route = request(&[], &[("x-real-ip", "5.6.7.8")]);
    let r = header("x-real-ip")
        .or(header("x-forwarded-for"))
        .unify()
        .filter(&mut route);
    assert_eq!(r, Ok(tuple(vec![Value::Text("5.6.7.8".to_string())])));
}

#[test]
fn missing_header_is_rejected_by_name() {
    let mut route = request(&[], &[("accept", "*/*")]);
    let r = header("host").filter(&mut route);
    assert_eq!(r, Err(Rejection::MissingHeader("host".to_string())));
}

#[test]
fn first_header_of_a_name_wins() {
    let mut route = request(&[], &[("a", "1"), ("b", "2"), ("b", "3")]);
    let r = header("b").filter(&mut route);
    assert_eq!(r, Ok(tuple(vec![Value::Text("2".to_string())])));
}

#[test]
fn unify_of_self_alternative_is_the_filter() {
    let mut route = request(&["31"], &[]);
    let r = param().or(param()).unify().filter(&mut route);
    assert_eq!(r, Ok(tuple(vec![Value::Num(31)])));
    assert_eq!(route.index, 1);
    let mut route = request(&["x"], &[]);
    let r = param().or(param()).unify().filter(&mut route);
    assert_eq!(
        r,
        Err(Rejection::Combined(
            Box::new(Rejection::InvalidParam),
            Box::new(Rejection::InvalidParam)
        ))
    );
}

#[test]
fn unify_drops_either_tag() {
    let mut route = request(&["x", "6"], &[]);
    let r = path("y").or(path("x").and(param())).unify().filter(&mut route);
    assert_eq!(r, Ok(tuple(vec![Value::Num(6)])));
}

#[test]
fn map_applies_callback_on_success() {
    let mut route = request(&["n", "3"], &[]);
    let r = path("n").and(param()).map(Single).filter(&mut route);
    assert_eq!(r, Ok(tuple(vec![Value::Num(3)])));
    let mut route = request(&["3"], &[]);
    let r = param().map(Status { code: 200 }).filter(&mut route);
    assert_eq!(r, Ok(tuple(vec![Value::Num(200)])));
}

#[test]
fn map_keeps_rejection() {
    let mut route = request(&["q"], &[]);
    let r = param().map(Status { code: 200 }).filter(&mut route);
    assert_eq!(r, Err(Rejection::InvalidParam));
}

#[test]
fn and_then_validates() {
    let mut route = request(&["10"], &[]);
    let r = param().and_then(Limit { max: 10 }).filter(&mut route);
    assert_eq!(r, Ok(tuple(vec![Value::Num(10)])));
    let mut route = request(&["11"], &[]);
    let r = param().and_then(Limit { max: 10 }).filter(&mut route);
    assert_eq!(r, Err(Rejection::InvalidParam));
    let mut route = request(&[], &[]);
    let r = param().and_then(Limit { max: 10 }).filter(&mut route);
    assert_eq!(r, Err(Rejection::NotFound));
}

#[test]
fn or_else_substitutes_on_non_match() {
    let mut route = request(&["b"], &[]);
    let r = path("a").or_else(Skip).filter(&mut route);
    assert_eq!(r, Ok(HList::Nil));
    let mut route = request(&[], &[]);
    let r = fail(4).or_else(Skip).filter(&mut route);
    assert_eq!(r, Err(Rejection::Custom(4)));
    let mut route = request(&["a"], &[]);
    let r = path("a").or_else(Skip).filter(&mut route);
    assert_eq!(r, Ok(HList::Nil));
    assert_eq!(route.index, 1);
}

#[test]
fn recover_turns_rejection_into_value() {
    let mut route = request(&[], &[]);
    let r = fail(9).recover(Status { code: 404 }).filter(&mut route);
    assert_eq!(
        r,
        Ok(tagged(Side::Right, tuple(vec![Value::Num(404)])))
    );
    let mut route = request(&["8"], &[]);
    let r = param().recover(Status { code: 404 }).filter(&mut route);
    assert_eq!(r, Ok(tagged(Side::Left, tuple(vec![Value::Num(8)]))));
}

#[test]
fn map_err_relabels_rejection() {
    let mut route = request(&[], &[]);
    let r = path("a").map_err(Relabel { code: 77 }).filter(&mut route);
    assert_eq!(r, Err(Rejection::Custom(77)));
    let mut route = request(&["a"], &[]);
    let r = path("a").map_err(Relabel { code: 77 }).filter(&mut route);
    assert_eq!(r, Ok(HList::Nil));
}

#[test]
fn unit_drops_unit_value() {
    let mut route = request(&[], &[]);
    let r = any().map(Empty).filter(&mut route);
    assert_eq!(r, Ok(tuple(vec![Value::Unit])));
    let mut route = request(&[], &[]);
    let r = any().map(Empty).unit().filter(&mut route);
    assert_eq!(r, Ok(HList::Nil));
    let mut route = request(&["a"], &[]);
    let r = path("a").unit().filter(&mut route);
    assert_eq!(r, Ok(HList::Nil));
    assert_eq!(route.index, 1);
    let mut route = request(&["b"], &[]);
    let r = path("a").unit().filter(&mut route);
    assert_eq!(r, Err(Rejection::NotFound));
}

#[test]
fn param_parses_decimal_u32() {
    let mut route = request(&["+7"], &[]);
    assert_eq!(param().filter(&mut route), Ok(tuple(vec![Value::Num(7)])));
    let mut route = request(&["4294967295"], &[]);
    assert_eq!(
        param().filter(&mut route),
        Ok(tuple(vec![Value::Num(4294967295)]))
    );
    let mut route = request(&["4294967296"], &[]);
    assert_eq!(param().filter(&mut route), Err(Rejection::InvalidParam));
    assert_eq!(route.index, 0);
    let mut route = request(&["-1"], &[]);
    assert_eq!(param().filter(&mut route), Err(Rejection::InvalidParam));
    let mut route = request(&[""], &[]);
    assert_eq!(param().filter(&mut route), Err(Rejection::InvalidParam));
}

#[test]
fn any_matches_everything() {
    let mut route = request(&["a"], &[]);
    assert_eq!(any().filter(&mut route), Ok(HList::Nil));
    assert_eq!(route.index, 0);
}

#[test]
fn rejection_combine_policy() {
    assert_eq!(
        Rejection::InvalidParam.combine(Rejection::not_found()),
        Rejection::InvalidParam
    );
    assert_eq!(
        Rejection::not_found().combine(Rejection::custom(5)),
        Rejection::Custom(5)
    );
    let both = Rejection::custom(1).combine(Rejection::custom(2));
    assert_eq!(
        both,
        Rejection::Combined(
            Box::new(Rejection::Custom(1)),
            Box::new(Rejection::Custom(2))
        )
    );
    assert_eq!(both.primary(), &Rejection::Custom(2));
    assert!(!both.is_not_found());
    assert_eq!(
        Rejection::not_found().combine(Rejection::not_found()),
        Rejection::NotFound
    );
    assert_eq!(Rejection::InvalidParam.primary(), &Rejection::InvalidParam);
    assert!(Rejection::not_found().is_not_found());
    assert!(!Rejection::InvalidParam.is_not_found());
}

#[test]
fn route_checkpoint_and_restore() {
    let mut route = request(&["a", "b"], &[]);
    let start = route.checkpoint();
    route.advance();
    assert_eq!(route.segment(), Some("b".to_string()));
    route.restore(start);
    assert_eq!(route.segment(), Some("a".to_string()));
}

#[test]
fn tup_one_wraps() {
    assert_eq!(tup_one(5u8), (5u8,));
}

#[test]
fn doctest_helper_runs() {
    warp::filter::__warp_filter_compilefail_doctest();
}

#[test]
fn identity_wrapper_keeps_outcome() {
    let mut route = request(&["users", "5"], &[]);
    let r = path("users").and(param()).with(Identity).filter(&mut route);
    assert_eq!(r, Ok(tuple(vec![Value::Num(5)])));
    assert_eq!(route.index, 2);
    let mut route = request(&[], &[]);
    let r = fail(6).with(Identity).filter(&mut route);
    assert_eq!(r, Err(Rejection::Custom(6)));
}
