use vstd::prelude::*;

verus! {

/// Which branch of an alternative produced a value.
#[derive(PartialEq, Eq, Structural, Clone, Copy, Debug)]
pub enum Side {
    Left,
    Right,
}

/// One extracted value.
#[derive(PartialEq, Eq, Debug)]
pub enum Value {
    /// The unit value `()`.
    Unit,
    Num(u32),
    Text(String),
    /// A tagged union over two extracted tuples.
    Either(Side, Box<HList>),
}

/// An extracted tuple, as a cons list: `Nil` is the empty tuple.
#[derive(PartialEq, Eq, Debug)]
pub enum HList {
    Nil,
    Cons(Value, Box<HList>),
}

/// The elements of a tuple, in order.
pub open spec fn elems(h: HList) -> Seq<Value>
    decreases h,
{
    match h {
        HList::Nil => Seq::empty(),
        HList::Cons(v, rest) => seq![v] + elems(*rest),
    }
}

/// The number of elements of a tuple.
pub open spec fn arity(h: HList) -> nat {
    elems(h).len()
}

/// A one-element tuple.
pub open spec fn one(v: Value) -> HList {
    HList::Cons(v, Box::new(HList::Nil))
}

/// The concatenation of two tuples.
pub open spec fn combined(a: HList, b: HList) -> HList
    decreases a,
{
    match a {
        HList::Nil => b,
        HList::Cons(v, rest) => HList::Cons(v, Box::new(combined(*rest, b))),
    }
}

/// Concatenating tuples concatenates their elements, so the arities add up.
pub proof fn lemma_combined_elems(a: HList, b: HList)
    ensures
        elems(combined(a, b)) == elems(a) + elems(b),
        arity(combined(a, b)) == arity(a) + arity(b),
    decreases a,
{
    match a {
        HList::Nil => {
            assert(elems(a) + elems(b) =~= elems(b));
        },
        HList::Cons(v, rest) => {
            lemma_combined_elems(*rest, b);
            assert(seq![v] + (elems(*rest) + elems(b)) =~= (seq![v] + elems(*rest)) + elems(b));
        },
    }
}

/// Concatenates two tuples.
pub fn combine(a: HList, b: HList) -> (r: HList)
    ensures
        r == combined(a, b),
    decreases a,
{
    match a {
        HList::Nil => b,
        HList::Cons(v, rest) => HList::Cons(v, Box::new(combine(*rest, b))),
    }
}

/// Wraps a value in a one-element tuple.
pub fn tup_one<T>(item: T) -> (r: (T,))
    ensures
        r.0 == item,
{
    (item,)
}

/// Wraps a value in a one-element extracted tuple.
pub fn one_of(v: Value) -> (r: HList)
    ensures
        r == one(v),
{
    HList::Cons(v, Box::new(HList::Nil))
}

/// A function that a filter calls on what it extracted or on a rejection.
pub trait Func<Args, Out> {
    /// How many values the callback is written to take: the arity of the tuple
    /// it is handed, or 1 for a single argument such as a rejection.
    spec fn params(&self) -> nat;

    /// What the call returns.
    spec fn spec_call(&self, args: Args) -> Out;

    fn call(&self, args: Args) -> (r: Out)
        ensures
            r == self.spec_call(args),
    ;
}

} // verus!
