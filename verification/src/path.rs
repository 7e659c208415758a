//! File paths, read by the conventions of Unix paths: `/` separates the
//! components, a path that starts with `/` is absolute.
use vstd::prelude::*;
use crate::text::chars_of;

verus! {

/// The position of the last `c` in `s`, or -1 where `s` holds none.
pub open spec fn last_index_of(s: Seq<char>, c: char) -> int
    decreases s.len(),
{
    if s.len() == 0 {
        -1
    } else if s.last() == c {
        s.len() - 1
    } else {
        last_index_of(s.drop_last(), c)
    }
}

pub proof fn lemma_last_index_range(s: Seq<char>, c: char)
    ensures
        -1 <= last_index_of(s, c) < s.len(),
        last_index_of(s, c) >= 0 ==> s[last_index_of(s, c)] == c,
    decreases s.len(),
{
    if s.len() > 0 && s.last() != c {
        lemma_last_index_range(s.drop_last(), c);
    }
}

proof fn lemma_last_index_is(s: Seq<char>, c: char, m: int)
    requires
        -1 <= m < s.len(),
        m >= 0 ==> s[m] == c,
        forall|j: int| m < j < s.len() ==> s[j] != c,
    ensures
        last_index_of(s, c) == m,
    decreases s.len(),
{
    if s.len() > 0 && m != s.len() - 1 {
        let t = s.drop_last();
        assert forall|j: int| m < j < t.len() implies t[j] != c by {
            assert(t[j] == s[j]);
        }
        lemma_last_index_is(t, c, m);
    }
}

/// A path that starts at the root.
pub open spec fn is_absolute_path(p: Seq<char>) -> bool {
    p.len() > 0 && p[0] == '/'
}

/// `name` appended to `dir`, with one separator between them where `dir` is
/// not empty and does not end with one already.
pub open spec fn join_path(dir: Seq<char>, name: Seq<char>) -> Seq<char> {
    if dir.len() == 0 || dir.last() == '/' {
        dir + name
    } else {
        dir + seq!['/'] + name
    }
}

/// Where `name` lies when it is read relative to `dir`: `name` itself when
/// it is absolute, else `name` under `dir`.
pub open spec fn resolve_path(dir: Seq<char>, name: Seq<char>) -> Seq<char> {
    if is_absolute_path(name) {
        name
    } else {
        join_path(dir, name)
    }
}

/// The file `filename` names, read relative to the directory `context_dir`.
pub fn resolve(context_dir: &str, filename: &str) -> (r: String)
    ensures
        r@ == resolve_path(context_dir@, filename@),
        filename@.len() > 0 && filename@[0] == '/' ==> r@ == filename@,
        !(filename@.len() > 0 && filename@[0] == '/') ==> r@ == (if context_dir@.len() == 0
            || context_dir@.last() == '/' {
            context_dir@ + filename@
        } else {
            context_dir@ + seq!['/'] + filename@
        }),
{
    if filename.unicode_len() > 0 && filename.get_char(0) == '/' {
        return filename.to_string();
    }
    let mut r = context_dir.to_string();
    let n: usize = context_dir.unicode_len();
    if n > 0 && context_dir.get_char(n - 1) != '/' {
        let sep = "/";
        proof {
            reveal_strlit("/");
        }
        r.append(sep);
    }
    r.append(filename);
    r
}

/// The last component of `p` that is a name: empty components and `.`
/// components are passed over, and a path whose last such component is `..`,
/// or that has none, names no file.
pub open spec fn file_name(p: Seq<char>) -> Option<Seq<char>>
    decreases p.len(),
{
    let k: int = last_index_of(p, '/');
    let seg = p.subrange(k + 1, p.len() as int);
    if seg.len() == 0 || seg == seq!['.'] {
        if k < 0 {
            None
        } else {
            proof {
                lemma_last_index_range(p, '/');
            }
            file_name(p.subrange(0, k))
        }
    } else if seg == seq!['.', '.'] {
        None
    } else {
        Some(seg)
    }
}

/// The extension of the file that `p` names: the text after the last `.` of
/// its name, where that `.` is not the name's first character.
pub open spec fn file_extension(p: Seq<char>) -> Option<Seq<char>> {
    match file_name(p) {
        Some(name) => {
            let d: int = last_index_of(name, '.');
            if d <= 0 {
                None
            } else {
                Some(name.subrange(d + 1, name.len() as int))
            }
        },
        None => None,
    }
}

/// The last position in `lo..hi` that holds `c`.
fn last_index_in(v: &Vec<char>, lo: usize, hi: usize, c: char) -> (r: Option<usize>)
    requires
        lo <= hi <= v@.len(),
    ensures
        match r {
            Some(k) => lo <= k < hi && last_index_of(v@.subrange(lo as int, hi as int), c) == k
                - lo,
            None => last_index_of(v@.subrange(lo as int, hi as int), c) == -1,
        },
{
    let mut i: usize = hi;
    while i > lo
        invariant
            lo <= i <= hi <= v@.len(),
            forall|j: int| i <= j < hi ==> v@[j] != c,
        decreases i,
    {
        if v[i - 1] == c {
            proof {
                let s = v@.subrange(lo as int, hi as int);
                assert forall|j: int| i - 1 - lo < j < s.len() implies s[j] != c by {
                    assert(s[j] == v@[lo + j]);
                }
                lemma_last_index_is(s, c, i - 1 - lo);
            }
            return Some(i - 1);
        }
        i = i - 1;
    }
    proof {
        let s = v@.subrange(lo as int, hi as int);
        assert forall|j: int| -1 < j < s.len() implies s[j] != c by {
            assert(s[j] == v@[lo + j]);
        }
        lemma_last_index_is(s, c, -1);
    }
    None
}

/// The extension of the file that `path` names, as
/// `Path::extension` gives it for Unix paths.
pub fn extension(path: &str) -> (r: Option<String>)
    ensures
        match r {
            Some(e) => file_extension(path@) == Some(e@),
            None => file_extension(path@) is None,
        },
{
    let v = chars_of(path);
    let mut end: usize = v.len();
    let mut start: usize = 0;
    assert(v@.subrange(0, end as int) =~= v@);
    loop
        invariant
            v@ == path@,
            end <= v@.len(),
            file_name(path@) == file_name(v@.subrange(0, end as int)),
        ensures
            v@ == path@,
            start <= end <= v@.len(),
            file_name(path@) == Some(v@.subrange(start as int, end as int)),
        decreases end,
    {
        let p = Ghost(v@.subrange(0, end as int));
        let k = last_index_in(&v, 0, end, '/');
        let s: usize = match k {
            Some(k) => k + 1,
            None => 0,
        };
        proof {
            lemma_last_index_range(p@, '/');
            assert(p@.subrange(last_index_of(p@, '/') + 1, p@.len() as int) =~= v@.subrange(
                s as int,
                end as int,
            ));
        }
        let seg_len: usize = end - s;
        if seg_len == 0 || (seg_len == 1 && v[s] == '.') {
            proof {
                if seg_len == 1 {
                    assert(v@.subrange(s as int, end as int) =~= seq!['.']);
                }
            }
            match k {
                None => {
                    return None;
                },
                Some(k) => {
                    assert(p@.subrange(0, k as int) =~= v@.subrange(0, k as int));
                    end = k;
                },
            }
        } else if seg_len == 2 && v[s] == '.' && v[s + 1] == '.' {
            assert(v@.subrange(s as int, end as int) =~= seq!['.', '.']);
            return None;
        } else {
            proof {
                if seg_len == 1 {
                    assert(v@.subrange(s as int, end as int) != seq!['.']) by {
                        assert(v@.subrange(s as int, end as int)[0] != '.');
                    }
                }
                if seg_len == 2 {
                    let g = v@.subrange(s as int, end as int);
                    assert(g != seq!['.', '.']) by {
                        if g == seq!['.', '.'] {
                            assert(g[0] == '.' && g[1] == '.');
                        }
                    }
                }
            }
            assert(file_name(p@) == Some(v@.subrange(s as int, end as int)));
            start = s;
            break ;
        }
    }
    let name = Ghost(v@.subrange(start as int, end as int));
    assert(file_name(path@) == Some(name@));
    let d = last_index_in(&v, start, end, '.');
    match d {
        Some(d) => {
            if d == start {
                None
            } else {
                let e = path.substring_char(d + 1, end).to_string();
                assert(e@ =~= name@.subrange(d + 1 - start, name@.len() as int));
                Some(e)
            }
        },
        None => None,
    }
}

} // verus!
