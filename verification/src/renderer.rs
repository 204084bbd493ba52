//! Argument-list construction for the git queries and the final graph
//! invocation, and validation of the queries' output.

use vstd::prelude::*;

use crate::error::Error;

verus! {

/// The arguments of the branch-listing query. Further positional arguments
/// (listing patterns, or a replacement `--format`) follow these.
pub fn branch_list_args() -> (r: Vec<String>)
    ensures
        r.deep_view() == seq!["branch"@, "--list"@, "--format=%(refname:short)"@],
{
    let mut r: Vec<String> = Vec::new();
    r.push(String::from_str("branch"));
    r.push(String::from_str("--list"));
    r.push(String::from_str("--format=%(refname:short)"));
    assert(r.deep_view() =~= seq!["branch"@, "--list"@, "--format=%(refname:short)"@]);
    r
}

/// The arguments of the query for the currently checked-out branch.
pub fn show_current_args() -> (r: Vec<String>)
    ensures
        r.deep_view() == seq!["branch"@, "--show-current"@],
{
    let mut r: Vec<String> = Vec::new();
    r.push(String::from_str("branch"));
    r.push(String::from_str("--show-current"));
    assert(r.deep_view() =~= seq!["branch"@, "--show-current"@]);
    r
}

/// The arguments of the query for the single most recent tag.
pub fn last_tag_args() -> (r: Vec<String>)
    ensures
        r.deep_view() == seq!["rev-list"@, "--tags"@, "--max-count=1"@],
{
    let mut r: Vec<String> = Vec::new();
    r.push(String::from_str("rev-list"));
    r.push(String::from_str("--tags"));
    r.push(String::from_str("--max-count=1"));
    assert(r.deep_view() =~= seq!["rev-list"@, "--tags"@, "--max-count=1"@]);
    r
}

/// The arguments of the merge-base query: the octopus merge base of all
/// references in the list.
pub fn merge_base_args(object_names: &Vec<String>) -> (r: Vec<String>)
    ensures
        r.deep_view() == seq!["merge-base"@, "--octopus"@] + object_names.deep_view(),
{
    let mut r: Vec<String> = Vec::new();
    r.push(String::from_str("merge-base"));
    r.push(String::from_str("--octopus"));
    let mut i: usize = 0;
    while i < object_names.len()
        invariant
            i <= object_names@.len(),
            r.deep_view() =~= seq!["merge-base"@, "--octopus"@] + object_names.deep_view()
                .take(i as int),
        decreases object_names@.len() - i,
    {
        let ghost dv = object_names.deep_view();
        let ghost pre = r.deep_view();
        let x = object_names[i].clone();
        r.push(x);
        assert(r.deep_view() =~= pre.push(dv[i as int]));
        assert(dv.take(i + 1) =~= dv.take(i as int).push(dv[i as int]));
        assert(seq!["merge-base"@, "--octopus"@] + dv.take(i as int).push(dv[i as int]) =~= (
        seq!["merge-base"@, "--octopus"@] + dv.take(i as int)).push(dv[i as int]));
        i += 1;
    }
    assert(object_names.deep_view().take(object_names@.len() as int) =~= object_names.deep_view());
    r
}

/// Validates the merge-base query's output: exactly one line — the common
/// ancestor — is required, and anything else means the history is ambiguous
/// or disconnected.
pub fn merge_base_from_lines(lines: Vec<String>) -> (r: Result<String, Error>)
    ensures
        lines@.len() == 1 ==> (r matches Ok(mb) && mb@ == lines.deep_view()[0]),
        lines@.len() != 1 ==> (r matches Err(e) && e matches Error::Other { message }
            && message@ == "expected a single line of output from merge-base"@),
{
    let mut lines = lines;
    if lines.len() == 1 {
        match lines.pop() {
            Some(mb) => Ok(mb),
            None => Err(Error::other(String::from_str(
                "expected a single line of output from merge-base",
            ))),
        }
    } else {
        Err(Error::other(String::from_str("expected a single line of output from merge-base")))
    }
}

/// Picks the format string for the graph invocation: an explicit request
/// wins over the configured fallback; with neither, no format is passed and
/// the tool's default applies.
pub fn choose_format(explicit: Option<String>, configured: Option<String>) -> (r: Option<String>)
    ensures
        explicit is Some ==> r == explicit,
        explicit is None ==> r == configured,
{
    match explicit {
        Some(f) => Some(f),
        None => configured,
    }
}

/// The ancestry-path lower bound for the graph invocation: the merge base
/// itself stays visible as the root, but its own ancestors are excluded.
pub open spec fn ancestry_bound_spec(merge_base: Seq<char>) -> Seq<char> {
    "^"@ + merge_base + "^@"@
}

/// The full argument vector of the graph invocation: graph and decorations
/// on, the optional format, the ancestry-path bound below the merge base,
/// the reference list as positive tips, and the path filters after an
/// explicit separator.
pub open spec fn log_args_spec(
    format: Option<Seq<char>>,
    merge_base: Seq<char>,
    object_names: Seq<Seq<char>>,
    files: Seq<Seq<char>>,
) -> Seq<Seq<char>> {
    seq!["log"@, "--graph"@, "--decorate"@] + (match format {
        Some(f) => seq!["--format="@ + f],
        None => Seq::<Seq<char>>::empty(),
    }) + seq!["--ancestry-path"@, ancestry_bound_spec(merge_base)] + object_names + seq!["--"@]
        + files
}

/// Builds the graph invocation's argument vector.
pub fn log_args(
    format: Option<String>,
    merge_base: &String,
    object_names: &Vec<String>,
    files: &Vec<String>,
) -> (r: Vec<String>)
    ensures
        r.deep_view() == log_args_spec(
            format.deep_view(),
            merge_base@,
            object_names.deep_view(),
            files.deep_view(),
        ),
{
    let ghost format_view = format.deep_view();
    let mut r: Vec<String> = Vec::new();
    r.push(String::from_str("log"));
    r.push(String::from_str("--graph"));
    r.push(String::from_str("--decorate"));
    match format {
        Some(f) => {
            let mut arg = String::from_str("--format=");
            arg.append(f.as_str());
            r.push(arg);
        },
        None => {},
    }
    r.push(String::from_str("--ancestry-path"));
    let mut bound = String::from_str("^");
    bound.append(merge_base.as_str());
    bound.append("^@");
    r.push(bound);
    let ghost prefix = r.deep_view();
    assert(prefix =~= seq!["log"@, "--graph"@, "--decorate"@] + (match format_view {
        Some(f) => seq!["--format="@ + f],
        None => Seq::<Seq<char>>::empty(),
    }) + seq!["--ancestry-path"@, ancestry_bound_spec(merge_base@)]);
    let mut i: usize = 0;
    while i < object_names.len()
        invariant
            i <= object_names@.len(),
            r.deep_view() =~= prefix + object_names.deep_view().take(i as int),
        decreases object_names@.len() - i,
    {
        let ghost dv = object_names.deep_view();
        let ghost pre = r.deep_view();
        r.push(object_names[i].clone());
        assert(r.deep_view() =~= pre.push(dv[i as int]));
        assert(dv.take(i + 1) =~= dv.take(i as int).push(dv[i as int]));
        assert(prefix + dv.take(i as int).push(dv[i as int]) =~= (prefix + dv.take(
            i as int,
        )).push(dv[i as int]));
        i += 1;
    }
    assert(object_names.deep_view().take(object_names@.len() as int) =~= object_names.deep_view());
    r.push(String::from_str("--"));
    let ghost prefix2 = r.deep_view();
    assert(prefix2 =~= prefix + object_names.deep_view() + seq!["--"@]);
    let mut j: usize = 0;
    while j < files.len()
        invariant
            j <= files@.len(),
            r.deep_view() =~= prefix2 + files.deep_view().take(j as int),
        decreases files@.len() - j,
    {
        let ghost fv = files.deep_view();
        let ghost pre = r.deep_view();
        r.push(files[j].clone());
        assert(r.deep_view() =~= pre.push(fv[j as int]));
        assert(fv.take(j + 1) =~= fv.take(j as int).push(fv[j as int]));
        assert(prefix2 + fv.take(j as int).push(fv[j as int]) =~= (prefix2 + fv.take(
            j as int,
        )).push(fv[j as int]));
        j += 1;
    }
    assert(files.deep_view().take(files@.len() as int) =~= files.deep_view());
    assert(r.deep_view() =~= log_args_spec(
        format_view,
        merge_base@,
        object_names.deep_view(),
        files.deep_view(),
    ));
    r
}

/// Interprets the configuration query's outcome for a single key: exit code
/// zero yields the key's value (its one output line, or nothing when the
/// output is empty), exit code one means the key is simply unset, and any
/// other outcome is a subprocess failure. More than one line of output for
/// one key breaks the query's own contract and is excluded here.
pub fn config_value(code: Option<i32>, lines: Vec<String>) -> (r: Result<Option<String>, Error>)
    requires
        code == Some(0i32) ==> lines@.len() <= 1,
    ensures
        code == Some(0i32) && lines@.len() == 1 ==> (r matches Ok(v) && v matches Some(s)
            && s@ == lines.deep_view()[0]),
        code == Some(0i32) && lines@.len() == 0 ==> r == Result::<Option<String>, Error>::Ok(
            None,
        ),
        code == Some(1i32) ==> r == Result::<Option<String>, Error>::Ok(None),
        code != Some(0i32) && code != Some(1i32) ==> r == Result::<Option<String>, Error>::Err(
            Error::SubprocessFailedWithExplanation { code },
        ),
{
    match code {
        Some(0) => {
            let mut lines = lines;
            Ok(lines.pop())
        },
        Some(1) => Ok(None),
        _ => Err(Error::SubprocessFailedWithExplanation { code }),
    }
}

} // verus!
