//! The branch-selection policy: which references each run mode shows.

use vstd::prelude::*;

verus! {

/// The toggles shared by the stack and locals modes: whether to also show
/// each selected branch's upstream counterpart, its push-target counterpart,
/// and the most recent tag.
#[derive(Clone, Copy, Debug, PartialEq, Eq, Structural)]
pub struct PresetConfig {
    pub select_upstreams: bool,
    pub select_pushes: bool,
    pub select_last_tag: bool,
}

/// What stack mode decided: the positional arguments for the branch-listing
/// query, the effective preset (upstream inclusion may have been forced on),
/// and whether `HEAD` must be appended afterwards because no branch is
/// checked out.
pub struct StackPlan {
    pub listing_args: Vec<String>,
    pub preset: PresetConfig,
    pub append_head: bool,
}

/// The positional arguments of the branch-listing query in stack mode: the
/// base and the current branch, with the base listed only once when the
/// current branch *is* the base, and the base alone when `HEAD` is detached.
pub open spec fn stack_listing_spec(base: Seq<char>, current: Option<Seq<char>>) -> Seq<
    Seq<char>,
> {
    match current {
        Some(c) => if c == base {
            seq![c]
        } else {
            seq![base, c]
        },
        None => seq![base],
    }
}

/// Upstream inclusion in stack mode: as requested, but forced on when the
/// current branch equals the base.
pub open spec fn stack_upstreams_spec(
    requested: bool,
    base: Seq<char>,
    current: Option<Seq<char>>,
) -> bool {
    requested || current == Some(base)
}

/// The predicate picking out one reference name.
pub open spec fn is_name(name: Seq<char>) -> spec_fn(Seq<char>) -> bool {
    |r: Seq<char>| r == name
}

/// How often a reference name occurs in a reference list.
pub open spec fn count_of(refs: Seq<Seq<char>>, name: Seq<char>) -> nat {
    refs.filter(is_name(name)).len()
}

/// The opening of the guard that replaces the checked-out entry with the
/// symbolic name `HEAD` in the branch listing, used when `HEAD` is detached:
/// the detached entry is the one the listing marks as checked out, and it
/// has no branch name of its own.
pub open spec fn head_guard_spec() -> Seq<char> {
    "%(if)%(HEAD)%(then)HEAD%(else)"@
}

/// The closing of the detached-`HEAD` guard.
pub open spec fn head_guard_close_spec() -> Seq<char> {
    "%(end)"@
}

/// The part of the listing format that prints each branch's short name.
pub open spec fn refname_spec() -> Seq<char> {
    "%(refname:short)"@
}

/// The guarded directive that prints a branch's upstream counterpart on a
/// line of its own — and nothing for a branch without one.
pub open spec fn upstream_clause_spec() -> Seq<char> {
    "%(if)%(upstream)%(then)\n%(upstream:short)%(end)"@
}

/// The guarded directive that prints a branch's push-target counterpart on
/// a line of its own — and nothing for a branch without one.
pub open spec fn push_clause_spec() -> Seq<char> {
    "%(if)%(push)%(then)\n%(push:short)%(end)"@
}

/// The `--format` argument handed to the branch listing: the name part
/// (wrapped in the detached-`HEAD` guard when no branch is checked out),
/// then the upstream and push directives for the enabled toggles.
pub open spec fn branch_format_spec(detached: bool, upstreams: bool, pushes: bool) -> Seq<char> {
    "--format="@ + (if detached {
        head_guard_spec()
    } else {
        Seq::<char>::empty()
    }) + refname_spec() + (if upstreams {
        upstream_clause_spec()
    } else {
        Seq::<char>::empty()
    }) + (if pushes {
        push_clause_spec()
    } else {
        Seq::<char>::empty()
    }) + (if detached {
        head_guard_close_spec()
    } else {
        Seq::<char>::empty()
    })
}

/// Builds the `--format` argument for the branch-listing query.
pub fn branch_format(detached: bool, upstreams: bool, pushes: bool) -> (r: String)
    ensures
        r@ == branch_format_spec(detached, upstreams, pushes),
{
    let mut r = String::from_str("--format=");
    if detached {
        r.append("%(if)%(HEAD)%(then)HEAD%(else)");
    }
    r.append("%(refname:short)");
    if upstreams {
        r.append("%(if)%(upstream)%(then)\n%(upstream:short)%(end)");
    }
    if pushes {
        r.append("%(if)%(push)%(then)\n%(push:short)%(end)");
    }
    if detached {
        r.append("%(end)");
    }
    assert(r@ =~= branch_format_spec(detached, upstreams, pushes));
    r
}

/// Resolves the base reference for stack mode: an explicit flag wins, then a
/// configured override, then the hardcoded default `main`.
pub fn resolve_base(flag: Option<String>, config: Option<String>) -> (r: String)
    ensures
        flag matches Some(f) ==> r == f,
        flag is None ==> (config matches Some(c) ==> r == c),
        flag is None && config is None ==> r@ == "main"@,
{
    match flag {
        Some(f) => f,
        None => match config {
            Some(c) => c,
            None => String::from_str("main"),
        },
    }
}

/// The current branch as reported by the show-current query: its single
/// output line, or nothing when `HEAD` is detached.
pub fn current_branch_from_lines(lines: Vec<String>) -> (r: Option<String>)
    requires
        lines@.len() <= 1,
    ensures
        lines@.len() == 0 ==> r is None,
        lines@.len() == 1 ==> (r matches Some(c) && c@ == lines.deep_view()[0]),
{
    let mut lines = lines;
    lines.pop()
}

/// Decides the stack-mode selection from the resolved base and the current
/// branch. When a branch is checked out, it is listed after the base — or
/// alone, with upstream inclusion forced on, when it *is* the base. When
/// `HEAD` is detached, only the base is listed and `HEAD` itself must be
/// appended to the final reference list.
pub fn stack_plan(base: String, current: Option<String>, preset: PresetConfig) -> (r: StackPlan)
    ensures
        r.listing_args.deep_view() == stack_listing_spec(base@, current.deep_view()),
        r.preset.select_upstreams == stack_upstreams_spec(
            preset.select_upstreams,
            base@,
            current.deep_view(),
        ),
        r.preset.select_pushes == preset.select_pushes,
        r.preset.select_last_tag == preset.select_last_tag,
        r.append_head == (current is None),
{
    let ghost base_view = base@;
    let mut listing_args: Vec<String> = Vec::new();
    match current {
        Some(c) => {
            let ghost c_view = c@;
            let same = c == base;
            let effective = PresetConfig {
                select_upstreams: preset.select_upstreams || same,
                select_pushes: preset.select_pushes,
                select_last_tag: preset.select_last_tag,
            };
            if same {
                listing_args.push(c);
                assert(listing_args.deep_view() =~= stack_listing_spec(
                    base_view,
                    Some(c_view),
                ));
            } else {
                listing_args.push(base);
                listing_args.push(c);
                assert(listing_args.deep_view() =~= stack_listing_spec(
                    base_view,
                    Some(c_view),
                ));
            }
            StackPlan { listing_args, preset: effective, append_head: false }
        },
        None => {
            listing_args.push(base);
            assert(listing_args.deep_view() =~= stack_listing_spec(base_view, None));
            StackPlan { listing_args, preset, append_head: true }
        },
    }
}

/// Appends the most recent tag — the last line of the tag query's output —
/// to the reference list. Returns whether a warning is due instead: a tag
/// was requested but the repository has none.
pub fn append_last_tag(branches: &mut Vec<String>, tag_lines: Vec<String>) -> (warned: bool)
    ensures
        tag_lines@.len() == 0 ==> final(branches)@ == old(branches)@ && warned,
        tag_lines@.len() > 0 ==> final(branches).deep_view() == old(branches).deep_view().push(
            tag_lines.deep_view().last(),
        ) && !warned,
{
    let ghost orig_tags = tag_lines.deep_view();
    let mut tag_lines = tag_lines;
    match tag_lines.pop() {
        Some(tag) => {
            branches.push(tag);
            assert(branches.deep_view() =~= old(branches).deep_view().push(orig_tags.last()));
            false
        },
        None => true,
    }
}

/// Appends the symbolic name `HEAD` to the reference list: in stack mode
/// with a detached `HEAD` the branch-listing query cannot name the checked
/// out commit, so it is injected here, exactly once.
pub fn append_head_ref(branches: &mut Vec<String>)
    ensures
        final(branches).deep_view() == old(branches).deep_view().push("HEAD"@),
{
    branches.push(String::from_str("HEAD"));
    assert(branches.deep_view() =~= old(branches).deep_view().push("HEAD"@));
}

} // verus!
