//! The selection policy's guarantees, stated and proved over the spec
//! functions that the executable functions' contracts use.

use vstd::prelude::*;

use crate::selector::{
    branch_format_spec, count_of, head_guard_close_spec, head_guard_spec, is_name,
    push_clause_spec, refname_spec, stack_listing_spec, stack_upstreams_spec,
    upstream_clause_spec,
};

verus! {

/// Filtering a sequence extended by one element keeps the old matches and
/// adds the new element exactly when it satisfies the predicate.
proof fn lemma_filter_push<A>(s: Seq<A>, pred: spec_fn(A) -> bool, x: A)
    ensures
        s.push(x).filter(pred) == if pred(x) {
            s.filter(pred).push(x)
        } else {
            s.filter(pred)
        },
{
    reveal(Seq::filter);
    assert(s.push(x).drop_last() =~= s);
    assert(s.push(x).last() == x);
}

/// A name that occurs nowhere in a reference list has count zero.
proof fn lemma_count_absent(refs: Seq<Seq<char>>, name: Seq<char>)
    requires
        forall|k: int| 0 <= k < refs.len() ==> refs[k] != name,
    ensures
        count_of(refs, name) == 0,
    decreases refs.len(),
{
    if refs.len() == 0 {
        reveal(Seq::filter);
    } else {
        let shorter = refs.drop_last();
        lemma_count_absent(shorter, name);
        lemma_filter_push(shorter, is_name(name), refs.last());
        assert(shorter.push(refs.last()) =~= refs);
    }
}

/// Appending a name to a reference list raises its count by exactly one.
pub proof fn lemma_append_counts_once(refs: Seq<Seq<char>>, name: Seq<char>)
    ensures
        count_of(refs.push(name), name) == count_of(refs, name) + 1,
{
    lemma_filter_push(refs, is_name(name), name);
}

/// With a detached `HEAD`, the branch-listing query cannot name the checked
/// out commit, so `HEAD` is injected into the reference list explicitly —
/// and exactly once: a list that does not already name `HEAD` names it
/// exactly once after the injection.
pub proof fn lemma_head_injected_once(refs: Seq<Seq<char>>)
    requires
        forall|k: int| 0 <= k < refs.len() ==> refs[k] != "HEAD"@,
    ensures
        count_of(refs.push("HEAD"@), "HEAD"@) == 1,
{
    lemma_count_absent(refs, "HEAD"@);
    lemma_append_counts_once(refs, "HEAD"@);
}

/// In stack mode, when the checked-out branch equals the resolved base, the
/// listing names the base exactly once — it is not duplicated — and
/// upstream inclusion behaves as if it were switched on, whatever was
/// requested.
pub proof fn lemma_stack_base_not_duplicated(base: Seq<char>, requested_upstreams: bool)
    ensures
        stack_listing_spec(base, Some(base)) == seq![base],
        count_of(stack_listing_spec(base, Some(base)), base) == 1,
        stack_upstreams_spec(requested_upstreams, base, Some(base)),
{
    lemma_count_absent(Seq::<Seq<char>>::empty(), base);
    lemma_append_counts_once(Seq::<Seq<char>>::empty(), base);
    assert(Seq::<Seq<char>>::empty().push(base) =~= seq![base]);
}

/// Enabling upstream inclusion appends exactly the guarded upstream
/// directive to the branch-listing format, directly after the name part:
/// the listing then carries one extra line — the upstream — for each branch
/// that has one, and the guard keeps branches without one silent.
pub proof fn lemma_upstream_inclusion_appends_directive(detached: bool, pushes: bool)
    ensures
        branch_format_spec(detached, true, pushes) == ("--format="@ + (if detached {
            head_guard_spec()
        } else {
            Seq::<char>::empty()
        }) + refname_spec()) + upstream_clause_spec() + ((if pushes {
            push_clause_spec()
        } else {
            Seq::<char>::empty()
        }) + (if detached {
            head_guard_close_spec()
        } else {
            Seq::<char>::empty()
        })),
        branch_format_spec(detached, false, pushes) == ("--format="@ + (if detached {
            head_guard_spec()
        } else {
            Seq::<char>::empty()
        }) + refname_spec()) + ((if pushes {
            push_clause_spec()
        } else {
            Seq::<char>::empty()
        }) + (if detached {
            head_guard_close_spec()
        } else {
            Seq::<char>::empty()
        })),
{
    assert(branch_format_spec(detached, true, pushes) =~= ("--format="@ + (if detached {
        head_guard_spec()
    } else {
        Seq::<char>::empty()
    }) + refname_spec()) + upstream_clause_spec() + ((if pushes {
        push_clause_spec()
    } else {
        Seq::<char>::empty()
    }) + (if detached {
        head_guard_close_spec()
    } else {
        Seq::<char>::empty()
    })));
    assert(branch_format_spec(detached, false, pushes) =~= ("--format="@ + (if detached {
        head_guard_spec()
    } else {
        Seq::<char>::empty()
    }) + refname_spec()) + ((if pushes {
        push_clause_spec()
    } else {
        Seq::<char>::empty()
    }) + (if detached {
        head_guard_close_spec()
    } else {
        Seq::<char>::empty()
    })));
}

} // verus!
