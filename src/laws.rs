use vstd::prelude::*;
use crate::arg::{Arg, Never, Opt, OrHelp, WithHelp};
use crate::combinators::{Both, Choice, ChoiceError, WithDefault};
use crate::engine::{present, value_of, MatchTable};
use crate::switch::{keys_of, Switches};
use crate::validation::{collides, lemma_push_contains, repeated_keys, Checker, Invalid};

verus! {

/// A key is listed as repeated exactly when two distinct positions of `ks`
/// hold it.
pub proof fn lemma_repeated_keys_exact(ks: Seq<Seq<char>>, k: Seq<char>)
    ensures
        repeated_keys(ks).contains(k) <==> collides(ks, k),
    decreases ks.len(),
{
    if ks.len() > 0 {
        let p = ks.drop_last();
        let last = ks.last();
        lemma_repeated_keys_exact(p, k);
        lemma_push_contains(repeated_keys(p), last, k);
        if collides(p, k) {
            let (i, j) = choose|i: int, j: int| 0 <= i < j < p.len() && p[i] == k && p[j] == k;
            assert(ks[i] == k && ks[j] == k);
        }
        if last == k && p.contains(k) {
            let i = choose|i: int| 0 <= i < p.len() && p[i] == k;
            assert(ks[i] == k && ks[ks.len() - 1] == k);
        }
        if collides(ks, k) {
            let (i, j) = choose|i: int, j: int| 0 <= i < j < ks.len() && ks[i] == k && ks[j] == k;
            if j < ks.len() - 1 {
                assert(p[i] == k && p[j] == k);
            } else {
                assert(p[i] == k);
            }
        }
    }
}

/// Validation of a descriptor tree reports a key exactly when two of the
/// tree's switches share that key (the short name if there is one, else the
/// long name); so a tree in which no two switches share a key validates.
pub proof fn validation_reports_shared_keys<A: Arg>(a: A, k: Seq<char>)
    ensures
        repeated_keys(keys_of(a.switches())).contains(k) <==> collides(keys_of(a.switches()), k),
        repeated_keys(keys_of(a.switches())).len() == 0 <==> forall|k2: Seq<char>|
            !collides(keys_of(a.switches()), k2),
{
    let ks = keys_of(a.switches());
    lemma_repeated_keys_exact(ks, k);
    if repeated_keys(ks).len() == 0 {
        assert forall|k2: Seq<char>| !collides(ks, k2) by {
            lemma_repeated_keys_exact(ks, k2);
        }
    } else {
        let k2 = repeated_keys(ks)[0];
        lemma_repeated_keys_exact(ks, k2);
        assert(repeated_keys(ks).contains(k2));
    }
}

/// Registering one tree on two fresh checkers gives the same report from
/// each: which checker runs the validation does not matter.
pub fn validate_on_two_checkers<A: Arg>(a: &A) -> (r: (Option<Invalid>, Option<Invalid>))
    ensures
        r.0 is None <==> r.1 is None,
        r.0 matches Some(x) ==> (r.1 matches Some(y) && x.key_views() == y.key_views()),
        r.0 is None <==> repeated_keys(keys_of(a.switches())).len() == 0,
{
    let mut first = Checker::new();
    let mut second = Checker::new();
    a.update_switches(&mut first);
    a.update_switches(&mut second);
    assert(first.registered() =~= second.registered());
    assert(first.registered() =~= a.switches());
    (first.invalid(), second.invalid())
}

/// Of two optional string switches, neither given yields nothing, one given
/// yields its value, and both given yields the mutual-exclusion error naming
/// both descriptors.
pub proof fn choice_of_two_options(
    c: Choice<Opt, Opt>,
    t: MatchTable,
    r: Result<Option<String>, ChoiceError<Never, Never>>,
)
    requires
        c.outcome(t, r),
    ensures
        value_of(t, c.a.common.key()) is None && value_of(t, c.b.common.key()) is None ==> r
            matches Ok(None),
        value_of(t, c.a.common.key()) is Some && value_of(t, c.b.common.key()) is None ==> (r
            matches Ok(Some(v)) && Some(v@) == value_of(t, c.a.common.key())),
        value_of(t, c.a.common.key()) is None && value_of(t, c.b.common.key()) is Some ==> (r
            matches Ok(Some(v)) && Some(v@) == value_of(t, c.b.common.key())),
        value_of(t, c.a.common.key()) is Some && value_of(t, c.b.common.key()) is Some ==> (r
            matches Err(ChoiceError::MultipleMutuallyExclusiveArgs { a, b }) && a@ == c.a.title()
            && b@ == c.b.title()),
{
}

/// With a fallback, an absent value gives the fallback and a given value
/// gives that value.
pub proof fn default_fills_only_absence<A, T>(
    w: WithDefault<A, T>,
    t: MatchTable,
    given: T,
    r: Result<T, A::Error>,
) where A: Arg<Item = Option<T>>
    requires
        w.outcome(t, r),
    ensures
        (forall|x: Result<Option<T>, A::Error>| w.arg.outcome(t, x) ==> x == Ok::<
            Option<T>,
            A::Error,
        >(None)) ==> r == Ok::<T, A::Error>(w.default_value),
        (forall|x: Result<Option<T>, A::Error>| w.arg.outcome(t, x) ==> x == Ok::<
            Option<T>,
            A::Error,
        >(Some(given))) ==> r == Ok::<T, A::Error>(given),
{
}

/// When the help flag is present, the result is the help request, whatever
/// the wrapped descriptor would give.
pub proof fn help_wins<A: Arg>(w: WithHelp<A>, t: MatchTable, r: Result<OrHelp<A::Item>, A::Error>)
    requires
        present(t, w.help_flag.common.key()),
    ensures
        w.outcome(t, r) <==> r matches Ok(OrHelp::Help),
{
}

/// Two descriptors that each can only give one value pair those values.
pub proof fn both_pairs_values<A: Arg, B: Arg>(
    p: Both<A, B>,
    t: MatchTable,
    x: A::Item,
    y: B::Item,
    r: Result<(A::Item, B::Item), crate::combinators::BothError<A::Error, B::Error>>,
)
    requires
        forall|ra: Result<A::Item, A::Error>| p.a.outcome(t, ra) ==> ra == Ok::<A::Item, A::Error>(x),
        forall|rb: Result<B::Item, B::Error>| p.b.outcome(t, rb) ==> rb == Ok::<B::Item, B::Error>(y),
        p.outcome(t, r),
    ensures
        r == Ok::<(A::Item, B::Item), crate::combinators::BothError<A::Error, B::Error>>((x, y)),
{
}

} // verus!
