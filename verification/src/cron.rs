//! Crontab stanza maintenance: a managed stanza is delimited by marker
//! comments derived from its tag, and the whole crontab is rewritten
//! atomically through `crontab -` by the shell.

use vstd::prelude::*;

verus! {

/// The comment line opening the managed stanza of `tag`.
pub open spec fn begin_marker_view(tag: Seq<char>) -> Seq<char> {
    "# hostconf begin: "@ + tag
}

/// The comment line closing the managed stanza of `tag`.
pub open spec fn end_marker_view(tag: Seq<char>) -> Seq<char> {
    "# hostconf end: "@ + tag
}

pub fn begin_marker(tag: &str) -> (r: String)
    ensures
        r@ == begin_marker_view(tag@),
{
    let mut s = "# hostconf begin: ".to_owned();
    s.append(tag);
    s
}

pub fn end_marker(tag: &str) -> (r: String)
    ensures
        r@ == end_marker_view(tag@),
{
    let mut s = "# hostconf end: ".to_owned();
    s.append(tag);
    s
}

/// Whether three consecutive lines read `a`, `b`, `c`.
pub open spec fn has_triple(v: Seq<Seq<char>>, a: Seq<char>, b: Seq<char>, c: Seq<char>) -> bool {
    exists|i: int|
        0 <= i && i + 2 < v.len() && #[trigger] v[i] == a && v[i + 1] == b && v[i + 2] == c
}

/// Whether the crontab already holds the desired stanza of `tag` verbatim.
pub open spec fn has_stanza(v: Seq<Seq<char>>, tag: Seq<char>, line: Seq<char>) -> bool {
    has_triple(v, begin_marker_view(tag), line, end_marker_view(tag))
}

fn has_triple_exec(lines: &Vec<String>, a: &String, b: &String, c: &String) -> (r: bool)
    ensures
        r == has_triple(lines.deep_view(), a@, b@, c@),
{
    let ghost v = lines.deep_view();
    if lines.len() < 3 {
        return false;
    }
    let mut i: usize = 0;
    while i < lines.len() - 2
        invariant
            0 <= i <= lines@.len() - 2,
            lines@.len() >= 3,
            v == lines.deep_view(),
            forall|j: int|
                0 <= j < i ==> !(#[trigger] v[j] == a@ && v[j + 1] == b@ && v[j + 2] == c@),
        decreases lines@.len() - i,
    {
        if lines[i] == *a && lines[i + 1] == *b && lines[i + 2] == *c {
            proof {
                assert(v[i as int] == a@ && v[i as int + 1] == b@ && v[i as int + 2] == c@);
                assert(has_triple(v, a@, b@, c@));
            }
            return true;
        }
        i += 1;
    }
    false
}

/// The index of the first line reading `m`, at or after `from`.
pub open spec fn first_match_from(v: Seq<Seq<char>>, m: Seq<char>, from: int) -> Option<int>
    decreases v.len() - from
        when 0 <= from <= v.len()
{
    if from >= v.len() {
        None
    } else if v[from] == m {
        Some(from)
    } else {
        first_match_from(v, m, from + 1)
    }
}

fn find_from(lines: &Vec<String>, m: &String, from: usize) -> (r: Option<usize>)
    requires
        from <= lines@.len(),
    ensures
        match r {
            Some(i) => from <= i < lines@.len() && first_match_from(
                lines.deep_view(),
                m@,
                from as int,
            ) == Some(i as int),
            None => first_match_from(lines.deep_view(), m@, from as int) is None,
        },
{
    let ghost v = lines.deep_view();
    let mut i: usize = from;
    while i < lines.len()
        invariant
            from <= i <= lines@.len(),
            v == lines.deep_view(),
            first_match_from(v, m@, from as int) == first_match_from(v, m@, i as int),
        decreases lines@.len() - i,
    {
        if lines[i] == *m {
            return Some(i);
        }
        i += 1;
    }
    None
}

/// The crontab with the managed region of `tag` cut out: from the first
/// begin marker through the first end marker after it (or through the end of
/// the file when the end marker is missing).
pub open spec fn strip_stanza(v: Seq<Seq<char>>, tag: Seq<char>) -> Seq<Seq<char>> {
    match first_match_from(v, begin_marker_view(tag), 0) {
        None => v,
        Some(b) => match first_match_from(v, end_marker_view(tag), b + 1) {
            None => v.take(b),
            Some(e) => v.take(b) + v.skip(e + 1),
        },
    }
}

/// The desired stanza, verbatim.
pub open spec fn stanza_view(tag: Seq<char>, line: Seq<char>) -> Seq<Seq<char>> {
    seq![begin_marker_view(tag), line, end_marker_view(tag)]
}

/// The crontab after `ensure_cron`: a matching stanza is left untouched, an
/// absent or stale one is cut out and the desired stanza appended.
pub open spec fn spec_ensure_cron(v: Seq<Seq<char>>, tag: Seq<char>, line: Seq<char>) -> Seq<
    Seq<char>,
> {
    if has_stanza(v, tag, line) {
        v
    } else {
        strip_stanza(v, tag) + stanza_view(tag, line)
    }
}

fn copy_lines(lines: &Vec<String>) -> (r: Vec<String>)
    ensures
        r.deep_view() == lines.deep_view(),
{
    let ghost v = lines.deep_view();
    let mut out: Vec<String> = Vec::new();
    let mut i: usize = 0;
    while i < lines.len()
        invariant
            0 <= i <= lines@.len(),
            v == lines.deep_view(),
            out.deep_view() =~~= v.take(i as int),
        decreases lines@.len() - i,
    {
        let ghost pre = out.deep_view();
        out.push(lines[i].clone());
        proof {
            assert forall|k: int| 0 <= k < out.deep_view().len() implies out.deep_view()[k]
                == v.take(i + 1)[k] by {
                assert(out.deep_view()[k] == out@[k].deep_view());
                if k < pre.len() {
                    assert(out@[k].deep_view() == pre[k]);
                }
            }
            assert(out.deep_view() =~~= v.take(i + 1));
        }
        i += 1;
    }
    proof {
        assert(out.deep_view() =~~= v);
    }
    out
}

/// Rewrite a user's crontab lines so they hold exactly the desired stanza of
/// `tag`.  Returns the new crontab and the `changed` flag: the input is
/// returned unchanged, with `changed == false`, exactly when the desired
/// stanza is already present verbatim.
pub fn ensure_cron_lines(existing: &Vec<String>, tag: &str, line: &str) -> (r: (Vec<String>, bool))
    ensures
        r.0.deep_view() == spec_ensure_cron(existing.deep_view(), tag@, line@),
        r.1 == !has_stanza(existing.deep_view(), tag@, line@),
{
    let ghost v = existing.deep_view();
    let begin = begin_marker(tag);
    let end = end_marker(tag);
    let line_s = line.to_owned();
    if has_triple_exec(existing, &begin, &line_s, &end) {
        return (copy_lines(existing), false);
    }
    let n = existing.len();
    let (stop, resume): (usize, usize) = match find_from(existing, &begin, 0) {
        None => (n, n),
        Some(b) => match find_from(existing, &end, b + 1) {
            None => (b, n),
            Some(e) => (b, e + 1),
        },
    };
    proof {
        assert(strip_stanza(v, tag@) =~~= v.take(stop as int) + v.subrange(
            resume as int,
            n as int,
        ));
    }
    let mut out: Vec<String> = Vec::new();
    let mut i: usize = 0;
    while i < stop
        invariant
            0 <= i <= stop <= existing@.len(),
            v == existing.deep_view(),
            out.deep_view() =~~= v.take(i as int),
        decreases stop - i,
    {
        let ghost pre = out.deep_view();
        out.push(existing[i].clone());
        proof {
            assert forall|k: int| 0 <= k < out.deep_view().len() implies out.deep_view()[k]
                == v.take(i + 1)[k] by {
                assert(out.deep_view()[k] == out@[k].deep_view());
                if k < pre.len() {
                    assert(out@[k].deep_view() == pre[k]);
                }
            }
            assert(out.deep_view() =~~= v.take(i + 1));
        }
        i += 1;
    }
    let mut j: usize = resume;
    while j < n
        invariant
            stop <= existing@.len(),
            resume <= j <= n == existing@.len(),
            v == existing.deep_view(),
            out.deep_view() =~~= v.take(stop as int) + v.subrange(resume as int, j as int),
        decreases n - j,
    {
        let ghost pre = out.deep_view();
        out.push(existing[j].clone());
        proof {
            let goal = v.take(stop as int) + v.subrange(resume as int, j + 1);
            assert forall|k: int| 0 <= k < out.deep_view().len() implies out.deep_view()[k]
                == goal[k] by {
                assert(out.deep_view()[k] == out@[k].deep_view());
                if k < pre.len() {
                    assert(out@[k].deep_view() == pre[k]);
                }
            }
            assert(out.deep_view() =~~= goal);
        }
        j += 1;
    }
    let ghost trunk = out.deep_view();
    out.push(begin);
    out.push(line_s);
    out.push(end);
    proof {
        let goal = strip_stanza(v, tag@) + stanza_view(tag@, line@);
        assert forall|k: int| 0 <= k < out.deep_view().len() implies out.deep_view()[k]
            == goal[k] by {
            assert(out.deep_view()[k] == out@[k].deep_view());
            if k < trunk.len() {
                assert(out@[k].deep_view() == trunk[k]);
            }
        }
        assert(out.deep_view() =~~= goal);
    }
    (out, true)
}

/// Ensuring the same (tag, line) twice yields an identical crontab on the
/// second call, and the second call reports `changed == false`.
pub proof fn lemma_ensure_cron_idempotent(v: Seq<Seq<char>>, tag: Seq<char>, line: Seq<char>)
    ensures
        has_stanza(spec_ensure_cron(v, tag, line), tag, line),
        spec_ensure_cron(spec_ensure_cron(v, tag, line), tag, line) == spec_ensure_cron(
            v,
            tag,
            line,
        ),
{
    let out = spec_ensure_cron(v, tag, line);
    if !has_stanza(v, tag, line) {
        let s = strip_stanza(v, tag);
        assert(out[s.len() as int] == begin_marker_view(tag));
        assert(out[s.len() as int + 1] == line);
        assert(out[s.len() as int + 2] == end_marker_view(tag));
        assert(s.len() as int + 2 < out.len());
        assert(has_stanza(out, tag, line));
    }
}

} // verus!
