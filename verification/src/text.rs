//! Line-oriented processing of captured subprocess output: splitting into
//! lines and trimming surrounding whitespace, the way the queries' stdout is
//! consumed.

use vstd::prelude::*;
use vstd::string::StrSliceExecFns;

verus! {

/// The characters trimmed from either end of a line: the Unicode whitespace
/// set (the same set `char::is_whitespace` recognizes).
pub open spec fn is_whitespace_spec(c: char) -> bool {
    let u = c as int;
    u == 0x09 || u == 0x0A || u == 0x0B || u == 0x0C || u == 0x0D || u == 0x20 || u == 0x85
        || u == 0xA0 || u == 0x1680 || (0x2000 <= u && u <= 0x200A) || u == 0x2028 || u == 0x2029
        || u == 0x202F || u == 0x205F || u == 0x3000
}

fn is_whitespace_char(c: char) -> (r: bool)
    ensures
        r == is_whitespace_spec(c),
{
    let u = c as u32;
    u == 0x09 || u == 0x0A || u == 0x0B || u == 0x0C || u == 0x0D || u == 0x20 || u == 0x85
        || u == 0xA0 || u == 0x1680 || (0x2000 <= u && u <= 0x200A) || u == 0x2028 || u == 0x2029
        || u == 0x202F || u == 0x205F || u == 0x3000
}

/// A line with its leading whitespace removed.
pub open spec fn trim_start_spec(s: Seq<char>) -> Seq<char>
    decreases s.len(),
{
    if s.len() > 0 && is_whitespace_spec(s[0]) {
        trim_start_spec(s.drop_first())
    } else {
        s
    }
}

/// A line with its trailing whitespace removed.
pub open spec fn trim_end_spec(s: Seq<char>) -> Seq<char>
    decreases s.len(),
{
    if s.len() > 0 && is_whitespace_spec(s.last()) {
        trim_end_spec(s.drop_last())
    } else {
        s
    }
}

/// A line with whitespace removed from both ends.
pub open spec fn trim_spec(s: Seq<char>) -> Seq<char> {
    trim_end_spec(trim_start_spec(s))
}

/// Removes leading and trailing whitespace from a line.
pub fn trimmed(s: &str) -> (r: String)
    ensures
        r@ == trim_spec(s@),
{
    let n = s.unicode_len();
    assert(s@.subrange(0, n as int) =~= s@);
    let mut start: usize = 0;
    while start < n && is_whitespace_char(s.get_char(start))
        invariant
            start <= n,
            n == s@.len(),
            trim_start_spec(s@) == trim_start_spec(s@.subrange(start as int, n as int)),
        decreases n - start,
    {
        assert(s@.subrange(start as int, n as int).drop_first() =~= s@.subrange(
            start + 1,
            n as int,
        ));
        start += 1;
    }
    assert(trim_start_spec(s@) == s@.subrange(start as int, n as int));
    let mut end: usize = n;
    while end > start && is_whitespace_char(s.get_char(end - 1))
        invariant
            start <= end <= n,
            n == s@.len(),
            trim_start_spec(s@) == s@.subrange(start as int, n as int),
            trim_end_spec(s@.subrange(start as int, n as int)) == trim_end_spec(
                s@.subrange(start as int, end as int),
            ),
        decreases end,
    {
        assert(s@.subrange(start as int, end as int).drop_last() =~= s@.subrange(
            start as int,
            end - 1,
        ));
        end -= 1;
    }
    assert(trim_spec(s@) == s@.subrange(start as int, end as int));
    let r = s.substring_char(start, end);
    r.to_owned()
}

/// The segments of a string around each newline character: always one more
/// segment than there are newlines, in order, each newline-free.
pub open spec fn split_nl_spec(s: Seq<char>) -> Seq<Seq<char>>
    decreases s.len(),
{
    if s.len() == 0 {
        seq![Seq::<char>::empty()]
    } else if s[0] == '\n' {
        seq![Seq::<char>::empty()] + split_nl_spec(s.drop_first())
    } else {
        let rest = split_nl_spec(s.drop_first());
        seq![seq![s[0]] + rest[0]] + rest.drop_first()
    }
}

proof fn lemma_split_nl_len(s: Seq<char>)
    ensures
        split_nl_spec(s).len() >= 1,
    decreases s.len(),
{
    if s.len() > 0 {
        lemma_split_nl_len(s.drop_first());
    }
}

proof fn lemma_split_nl_no_newline(a: Seq<char>)
    requires
        forall|k: int| 0 <= k < a.len() ==> a[k] != '\n',
    ensures
        split_nl_spec(a) == seq![a],
    decreases a.len(),
{
    if a.len() == 0 {
        assert(a =~= Seq::<char>::empty());
    } else {
        lemma_split_nl_no_newline(a.drop_first());
        assert(seq![a[0]] + a.drop_first() =~= a);
        assert(seq![a.drop_first()].drop_first() =~= Seq::<Seq<char>>::empty());
        assert(split_nl_spec(a) =~= seq![a]);
    }
}

proof fn lemma_split_nl_at_newline(a: Seq<char>, b: Seq<char>)
    requires
        forall|k: int| 0 <= k < a.len() ==> a[k] != '\n',
    ensures
        split_nl_spec(a + seq!['\n'] + b) == seq![a] + split_nl_spec(b),
    decreases a.len(),
{
    let s = a + seq!['\n'] + b;
    if a.len() == 0 {
        assert(s.drop_first() =~= b);
        assert(a =~= Seq::<char>::empty());
        assert(split_nl_spec(s) =~= seq![a] + split_nl_spec(b));
    } else {
        assert(s[0] == a[0]);
        lemma_split_nl_at_newline(a.drop_first(), b);
        assert(s.drop_first() =~= a.drop_first() + seq!['\n'] + b);
        let rest = split_nl_spec(s.drop_first());
        assert(rest == seq![a.drop_first()] + split_nl_spec(b));
        assert(rest[0] == a.drop_first());
        assert(rest.drop_first() =~= split_nl_spec(b));
        assert(seq![s[0]] + rest[0] =~= a);
        assert(split_nl_spec(s) =~= seq![a] + split_nl_spec(b));
    }
}

/// Every segment, trimmed.
pub open spec fn trim_all_spec(lines: Seq<Seq<char>>) -> Seq<Seq<char>> {
    lines.map_values(|l: Seq<char>| trim_spec(l))
}

/// How captured stdout becomes lines: split around each newline, drop the
/// final segment when it is empty (a trailing newline opens no further
/// line), and trim each remaining line.
pub open spec fn stdout_lines_spec(s: Seq<char>) -> Seq<Seq<char>> {
    let segs = split_nl_spec(s);
    let kept = if segs.last().len() == 0 {
        segs.drop_last()
    } else {
        segs
    };
    trim_all_spec(kept)
}

/// Splits captured stdout into its trimmed lines.
pub fn split_trimmed_lines(s: &str) -> (r: Vec<String>)
    ensures
        r.deep_view() == stdout_lines_spec(s@),
{
    let n = s.unicode_len();
    let mut raw: Vec<String> = Vec::new();
    let mut seg_start: usize = 0;
    let mut i: usize = 0;
    assert(s@.subrange(0, n as int) =~= s@);
    while i < n
        invariant
            seg_start <= i <= n,
            n == s@.len(),
            forall|k: int| seg_start <= k < i ==> s@[k] != '\n',
            split_nl_spec(s@) == raw.deep_view() + split_nl_spec(
                s@.subrange(seg_start as int, n as int),
            ),
        decreases n - i,
    {
        let c = s.get_char(i);
        if c == '\n' {
            let seg = s.substring_char(seg_start, i);
            let ghost pre = raw.deep_view();
            raw.push(seg.to_owned());
            proof {
                lemma_split_nl_at_newline(
                    s@.subrange(seg_start as int, i as int),
                    s@.subrange(i + 1, n as int),
                );
                assert(s@.subrange(seg_start as int, n as int) =~= s@.subrange(
                    seg_start as int,
                    i as int,
                ) + seq!['\n'] + s@.subrange(i + 1, n as int));
                assert(raw.deep_view() =~= pre.push(s@.subrange(seg_start as int, i as int)));
                assert(pre.push(s@.subrange(seg_start as int, i as int)) + split_nl_spec(
                    s@.subrange(i + 1, n as int),
                ) =~= pre + (seq![s@.subrange(seg_start as int, i as int)] + split_nl_spec(
                    s@.subrange(i + 1, n as int),
                )));
            }
            seg_start = i + 1;
        }
        i += 1;
    }
    let last_seg = s.substring_char(seg_start, n);
    let ghost pre = raw.deep_view();
    raw.push(last_seg.to_owned());
    proof {
        lemma_split_nl_no_newline(s@.subrange(seg_start as int, n as int));
        assert(raw.deep_view() =~= pre.push(s@.subrange(seg_start as int, n as int)));
        assert(pre.push(s@.subrange(seg_start as int, n as int)) =~= pre + seq![s@.subrange(
            seg_start as int,
            n as int,
        )]);
        assert(raw.deep_view() == split_nl_spec(s@));
    }
    proof {
        lemma_split_nl_len(s@);
    }
    let last_index = raw.len() - 1;
    if raw[last_index].as_str().is_empty() {
        let ghost whole = raw.deep_view();
        raw.pop();
        assert(raw.deep_view() =~= whole.drop_last());
    }
    let ghost kept = raw.deep_view();
    let mut out: Vec<String> = Vec::new();
    let mut j: usize = 0;
    while j < raw.len()
        invariant
            j <= raw@.len(),
            raw.deep_view() == kept,
            out.deep_view() == trim_all_spec(kept).take(j as int),
        decreases raw@.len() - j,
    {
        let t = trimmed(raw[j].as_str());
        let ghost preo = out.deep_view();
        out.push(t);
        proof {
            assert(out.deep_view() =~= preo.push(trim_spec(kept[j as int])));
            assert(trim_all_spec(kept).take(j + 1) =~= trim_all_spec(kept).take(j as int).push(
                trim_all_spec(kept)[j as int],
            ));
        }
        j += 1;
    }
    assert(trim_all_spec(kept).take(kept.len() as int) =~= trim_all_spec(kept));
    assert(out.deep_view() == stdout_lines_spec(s@));
    out
}

} // verus!
