//! Properties of sequences of stack operations, stated over the step
//! functions `pushed` and `popped` that `List::push`, `List::pop` and
//! `IntoIter::next` are specified by.
use vstd::prelude::*;
use crate::list::{pushed, popped};

verus! {

/// The stack after pushing the elements of `xs` onto `s`, first to last.
pub open spec fn push_all<T>(s: Seq<T>, xs: Seq<T>) -> Seq<T>
    decreases xs.len(),
{
    if xs.len() == 0 {
        s
    } else {
        push_all(pushed(s, xs[0]), xs.drop_first())
    }
}

/// What `n` pops in a row on `s` hand back, in order.
pub open spec fn pop_run<T>(s: Seq<T>, n: nat) -> Seq<Option<T>>
    decreases n,
{
    if n == 0 {
        Seq::empty()
    } else {
        seq![popped(s).0] + pop_run(popped(s).1, (n - 1) as nat)
    }
}

/// The stack left by `n` pops in a row on `s`.
pub open spec fn after_pops<T>(s: Seq<T>, n: nat) -> Seq<T>
    decreases n,
{
    if n == 0 {
        s
    } else {
        after_pops(popped(s).1, (n - 1) as nat)
    }
}

proof fn lemma_push_all_prepends<T>(s: Seq<T>, xs: Seq<T>)
    ensures
        push_all(s, xs) == xs.reverse() + s,
    decreases xs.len(),
{
    if xs.len() > 0 {
        lemma_push_all_prepends(pushed(s, xs[0]), xs.drop_first());
        assert(xs.reverse() =~= xs.drop_first().reverse().push(xs[0]));
        assert(xs.drop_first().reverse() + pushed(s, xs[0]) =~= xs.reverse() + s);
    }
}

proof fn lemma_pops_take_prefix<T>(t: Seq<T>, s: Seq<T>)
    ensures
        pop_run(t + s, t.len()) == t.map_values(|x: T| Some(x)),
        after_pops(t + s, t.len()) == s,
    decreases t.len(),
{
    if t.len() > 0 {
        assert((t + s).drop_first() =~= t.drop_first() + s);
        lemma_pops_take_prefix(t.drop_first(), s);
        assert(t.map_values(|x: T| Some(x)) =~= seq![Some(t[0])] + t.drop_first().map_values(
            |x: T| Some(x),
        ));
    }
}

/// Pushes followed by as many pops hand the pushed elements back in reverse
/// order of pushing, and leave the stack as it was before the pushes.
pub proof fn lemma_lifo<T>(s: Seq<T>, xs: Seq<T>)
    ensures
        pop_run(push_all(s, xs), xs.len()) == xs.reverse().map_values(|x: T| Some(x)),
        after_pops(push_all(s, xs), xs.len()) == s,
{
    lemma_push_all_prepends(s, xs);
    lemma_pops_take_prefix(xs.reverse(), s);
}

/// Any number of pops on an empty stack hand back `None` each time and leave
/// it empty.
pub proof fn lemma_pop_empty<T>(n: nat)
    ensures
        pop_run(Seq::<T>::empty(), n) == Seq::new(n, |i: int| None::<T>),
        after_pops(Seq::<T>::empty(), n) == Seq::<T>::empty(),
    decreases n,
{
    if n > 0 {
        lemma_pop_empty::<T>((n - 1) as nat);
        assert(pop_run(Seq::<T>::empty(), n) =~= Seq::new(n, |i: int| None::<T>));
    }
}

/// Draining a stack, by pops or by its consuming traversal, hands back its
/// elements from top to bottom and then `None` for every further step.
pub proof fn lemma_drain<T>(s: Seq<T>, n: nat)
    requires
        n >= s.len(),
    ensures
        pop_run(s, n).len() == n,
        forall|i: int| 0 <= i < s.len() ==> pop_run(s, n)[i] == Some(s[i]),
        forall|i: int| s.len() <= i < n ==> pop_run(s, n)[i] is None,
    decreases n,
{
    if n > 0 {
        lemma_drain(popped(s).1, (n - 1) as nat);
        assert forall|i: int| 0 <= i < s.len() implies pop_run(s, n)[i] == Some(s[i]) by {
            if i > 0 {
                assert(pop_run(s, n)[i] == pop_run(popped(s).1, (n - 1) as nat)[i - 1]);
            }
        }
        assert forall|i: int| s.len() <= i < n implies pop_run(s, n)[i] is None by {
            if i > 0 {
                assert(pop_run(s, n)[i] == pop_run(popped(s).1, (n - 1) as nat)[i - 1]);
            }
        }
    }
}

/// Writing the top's own value back through `peek_mut` leaves the stack as it
/// was; writing any value changes neither its size nor the elements below.
pub proof fn lemma_peek_mut_keeps_shape<T>(s: Seq<T>, v: T)
    requires
        s.len() > 0,
    ensures
        s.update(0, s[0]) == s,
        s.update(0, v).len() == s.len(),
        s.update(0, v).drop_first() == s.drop_first(),
{
    assert(s.update(0, s[0]) =~= s);
    assert(s.update(0, v).drop_first() =~= s.drop_first());
}

/// A value written through `peek_mut` is what the next pop hands back.
pub proof fn lemma_write_through_top<T>(s: Seq<T>, v: T)
    requires
        s.len() > 0,
    ensures
        popped(s.update(0, v)).0 == Some(v),
        popped(s.update(0, v)).1 == popped(s).1,
{
    assert(s.update(0, v).drop_first() =~= s.drop_first());
}

/// The stack after `k` calls of `peek_mut` in a row, each of which writes
/// nothing through the reference it hands out.
pub open spec fn after_unwritten_peeks<T>(s: Seq<T>, k: nat) -> Seq<T>
    decreases k,
{
    if k == 0 || s.len() == 0 {
        s
    } else {
        after_unwritten_peeks(s.update(0, s[0]), (k - 1) as nat)
    }
}

/// Any number of `peek_mut` calls that write nothing leave the stack as it
/// was, so every one of them sees the same top element.
pub proof fn lemma_unwritten_peeks_agree<T>(s: Seq<T>, k: nat)
    ensures
        after_unwritten_peeks(s, k) == s,
        forall|j: nat| j < k ==> after_unwritten_peeks(s, j) == s,
    decreases k,
{
    if k > 0 && s.len() > 0 {
        assert(s.update(0, s[0]) =~= s);
        lemma_unwritten_peeks_agree(s, (k - 1) as nat);
    }
    assert forall|j: nat| j < k implies after_unwritten_peeks(s, j) == s by {
        lemma_unwritten_peeks_agree(s, j);
    }
}

/// A complete exclusive traversal leaves in the stack exactly the values
/// finally held by the references it handed out, in order. `outcomes[i]` is
/// what the part not yet visited before the `i`-th step ends up holding, and
/// `written[i]` the final value behind the `i`-th reference; each step of
/// `IterMut::next` makes `outcomes[i]` equal to `written[i]` followed by
/// `outcomes[i + 1]`, and `List::iter_mut` makes the stack end up as
/// `outcomes[0]`.
pub proof fn lemma_traversal_writes_back<T>(outcomes: Seq<Seq<T>>, written: Seq<T>)
    requires
        outcomes.len() == written.len() + 1,
        outcomes[written.len() as int] == Seq::<T>::empty(),
        forall|i: int|
            0 <= i < written.len() ==> outcomes[i] == seq![written[i]] + outcomes[i + 1],
    ensures
        outcomes[0] == written,
    decreases written.len(),
{
    if written.len() > 0 {
        let rest = outcomes.drop_first();
        assert forall|i: int| 0 <= i < written.drop_first().len() implies rest[i] == seq![
            written.drop_first()[i],
        ] + rest[i + 1] by {
            assert(outcomes[i + 1] == seq![written[i + 1]] + outcomes[i + 2]);
        }
        lemma_traversal_writes_back(rest, written.drop_first());
        assert(outcomes[0] == seq![written[0]] + rest[0]);
        assert(outcomes[0] =~= written);
    }
}

} // verus!
