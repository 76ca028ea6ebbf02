//! Unix path arithmetic on strings, following `std::path` on Unix.

use vstd::prelude::*;
use crate::text::{chars_of, opt_view};

verus! {

broadcast use vstd::string::group_string_axioms;

/// The path `base.join(rel)`: an absolute `rel` replaces `base`; otherwise
/// `rel` is appended, with a `/` in between unless `base` is empty or already
/// ends in `/`.
pub open spec fn spec_join(base: Seq<char>, rel: Seq<char>) -> Seq<char> {
    if rel.len() > 0 && rel[0] == '/' {
        rel
    } else if base.len() == 0 || base.last() == '/' {
        base + rel
    } else {
        base + seq!['/'] + rel
    }
}

/// Joins `rel` onto `base` as `Path::join` does on Unix.
pub fn join_path(base: &str, rel: &str) -> (r: String)
    ensures
        r@ == spec_join(base@, rel@),
{
    let b = chars_of(base);
    let r = chars_of(rel);
    if r.len() > 0 && r[0] == '/' {
        return rel.to_owned();
    }
    let mut out = base.to_owned();
    if b.len() > 0 && b[b.len() - 1] != '/' {
        proof { reveal_strlit("/"); }
        out.append("/");
    }
    out.append(rel);
    out
}

/// The index of the last `c` before `end`, or -1 when there is none.
pub open spec fn last_index_of(s: Seq<char>, c: char, end: int) -> int
    decreases end,
{
    if end <= 0 {
        -1
    } else if s[end - 1] == c {
        end - 1
    } else {
        last_index_of(s, c, end - 1)
    }
}

pub proof fn lemma_last_index_of(s: Seq<char>, c: char, end: int)
    requires
        0 <= end <= s.len(),
    ensures
        -1 <= last_index_of(s, c, end) < end,
        last_index_of(s, c, end) >= 0 ==> s[last_index_of(s, c, end)] == c,
        forall|k: int| last_index_of(s, c, end) < k < end ==> s[k] != c,
    decreases end,
{
    if end > 0 && s[end - 1] != c {
        lemma_last_index_of(s, c, end - 1);
    }
}

/// Where the file name of the path `s[..end]` lies: its last component,
/// skipping empty and `.` components; none when that component is `..` or
/// when there is no component, as `Path::file_name` does on Unix.
pub open spec fn file_name_range(s: Seq<char>, end: int) -> Option<(int, int)>
    decreases end,
{
    if end <= 0 || end > s.len() {
        None
    } else {
        let k = last_index_of(s, '/', end);
        let seg = s.subrange(k + 1, end);
        if seg.len() == 0 || seg == seq!['.'] {
            if k < 0 {
                None
            } else {
                proof {
                    lemma_last_index_of(s, '/', end);
                }
                file_name_range(s, k)
            }
        } else if seg == seq!['.', '.'] {
            None
        } else {
            Some((k + 1, end))
        }
    }
}

pub proof fn lemma_file_name_range_bounds(s: Seq<char>, end: int)
    ensures
        file_name_range(s, end) matches Some((i, j)) ==> 0 <= i < j <= end <= s.len(),
    decreases end,
{
    if 0 < end <= s.len() {
        lemma_last_index_of(s, '/', end);
        let k = last_index_of(s, '/', end);
        if k >= 0 {
            lemma_file_name_range_bounds(s, k);
        }
    }
}

/// The file name of a path.
pub open spec fn spec_file_name(p: Seq<char>) -> Option<Seq<char>> {
    match file_name_range(p, p.len() as int) {
        Some((i, j)) => Some(p.subrange(i, j)),
        None => None,
    }
}

/// The extension of a file name: what follows its last `.`, unless it has
/// no `.` or its last `.` is its first character, as `Path::extension` does.
pub open spec fn spec_extension(name: Seq<char>) -> Option<Seq<char>> {
    let d = last_index_of(name, '.', name.len() as int);
    if d <= 0 {
        None
    } else {
        Some(name.subrange(d + 1, name.len() as int))
    }
}

/// The extension of the file name of a path.
pub open spec fn spec_path_extension(p: Seq<char>) -> Option<Seq<char>> {
    match spec_file_name(p) {
        Some(n) => spec_extension(n),
        None => None,
    }
}

fn last_index_in(v: &Vec<char>, c: char, end: usize) -> (r: Option<usize>)
    requires
        end <= v.len(),
    ensures
        match r {
            Some(k) => k as int == last_index_of(v@, c, end as int),
            None => last_index_of(v@, c, end as int) == -1,
        },
{
    let mut i = end;
    while i > 0
        invariant
            i <= end <= v.len(),
            last_index_of(v@, c, end as int) == last_index_of(v@, c, i as int),
        decreases i,
    {
        if v[i - 1] == c {
            return Some(i - 1);
        }
        i = i - 1;
    }
    None
}

fn file_name_in(v: &Vec<char>, end: usize) -> (r: Option<(usize, usize)>)
    requires
        end <= v.len(),
    ensures
        match r {
            Some((i, j)) => file_name_range(v@, end as int) == Some((i as int, j as int)),
            None => file_name_range(v@, end as int) is None,
        },
    decreases end,
{
    if end == 0 {
        return None;
    }
    let k = last_index_in(v, '/', end);
    proof {
        lemma_last_index_of(v@, '/', end as int);
    }
    let start = match k {
        Some(k) => k + 1,
        None => 0,
    };
    let len = end - start;
    let ghost seg = v@.subrange(start as int, end as int);
    if len == 0 || (len == 1 && v[start] == '.') {
        assert(len == 1 ==> seg =~= seq!['.']);
        assert(len != 1 && len != 0 ==> seg != seq!['.']);
        match k {
            None => None,
            Some(k) => file_name_in(v, k),
        }
    } else if len == 2 && v[start] == '.' && v[start + 1] == '.' {
        assert(seg =~= seq!['.', '.']);
        None
    } else {
        assert(seg != seq!['.']) by {
            if len == 1 {
                assert(seg[0] == v@[start as int]);
            }
        }
        assert(seg != seq!['.', '.']) by {
            if len == 2 {
                assert(seg[0] == v@[start as int] && seg[1] == v@[start + 1]);
            }
        }
        Some((start, end))
    }
}

/// The extension of the file name of `path`, as `Path::extension` finds it.
pub fn path_extension(path: &str) -> (r: Option<&str>)
    ensures
        match r {
            Some(e) => spec_path_extension(path@) == Some(e@),
            None => spec_path_extension(path@) is None,
        },
{
    let v = chars_of(path);
    match file_name_in(&v, v.len()) {
        None => None,
        Some((i, j)) => {
            proof {
                lemma_file_name_range_bounds(v@, v.len() as int);
            }
            let ghost name = v@.subrange(i as int, j as int);
            let d = last_index_in(&v, '.', j);
            proof {
                lemma_last_index_of(v@, '.', j as int);
                lemma_last_index_shift(v@, '.', i as int, j as int);
            }
            match d {
                Some(d) => {
                    if d > i {
                        assert(name.subrange(d - i + 1, name.len() as int) =~= v@.subrange(
                            d + 1,
                            j as int,
                        ));
                        Some(path.substring_char(d + 1, j))
                    } else {
                        None
                    }
                },
                None => None,
            }
        },
    }
}

proof fn lemma_last_index_shift(s: Seq<char>, c: char, i: int, j: int)
    requires
        0 <= i <= j <= s.len(),
    ensures
        ({
            let d = last_index_of(s, c, j);
            let e = last_index_of(s.subrange(i, j), c, j - i);
            (d >= i ==> e == d - i) && (d < i ==> e == -1)
        }),
    decreases j - i,
{
    let t = s.subrange(i, j);
    lemma_last_index_of(s, c, j);
    if j > i {
        assert(t[j - i - 1] == s[j - 1]);
        if s[j - 1] != c {
            let u = s.subrange(i, j - 1);
            lemma_last_index_shift(s, c, i, j - 1);
            assert forall|k: int| 0 <= k < u.len() implies t[k] == u[k] by {
                assert(t[k] == s[i + k]);
                assert(u[k] == s[i + k]);
            }
            lemma_prefix_last_index(t, u, c, j - i - 1);
            assert(last_index_of(t, c, j - i) == last_index_of(t, c, j - i - 1));
            assert(last_index_of(s, c, j) == last_index_of(s, c, j - 1));
        } else {
            assert(t.len() == j - i);
            assert(last_index_of(t, c, j - i) == j - i - 1);
            assert(last_index_of(s, c, j) == j - 1);
        }
    }
}

proof fn lemma_prefix_last_index(t: Seq<char>, u: Seq<char>, c: char, end: int)
    requires
        0 <= end <= u.len(),
        u.len() <= t.len(),
        forall|k: int| 0 <= k < u.len() ==> t[k] == u[k],
    ensures
        last_index_of(t, c, end) == last_index_of(u, c, end),
    decreases end,
{
    if end > 0 {
        lemma_prefix_last_index(t, u, c, end - 1);
    }
}

/// What `Path::strip_prefix` gives for `path` and `base`: the rest of `path`
/// after the whole leading components that equal those of `base`, or
/// nothing when `base` is not such a prefix.
pub uninterp spec fn std_strip_prefix(path: Seq<char>, base: Seq<char>) -> Option<Seq<char>>;

/// Strips the leading components `base` off `path`.
///
/// Trusted: calls `std::path::Path::strip_prefix`; the contract only names
/// its result, which depends on the two paths alone. The result is a part of
/// a valid `str`, so turning it back into a `String` loses nothing.
#[verifier::external_body]
pub(crate) fn strip_path_prefix(path: &str, base: &str) -> (r: Option<String>)
    ensures
        opt_view(r) == std_strip_prefix(path@, base@),
{
    std::path::Path::new(path).strip_prefix(base).ok().map(|p| p.to_string_lossy().into_owned())
}

} // verus!
