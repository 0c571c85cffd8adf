//! The file name and extension of a `/`-separated path, as `std::path::Path` reads them.

use vstd::prelude::*;

verus! {

/// The end of `s[..end]` once its trailing separators are dropped.
pub open spec fn strip_separators(s: Seq<char>, end: int) -> int
    decreases end,
{
    if end > 0 && s[end - 1] == '/' {
        strip_separators(s, end - 1)
    } else {
        end
    }
}

/// The start of the component of `s` that ends at `end`.
pub open spec fn component_start(s: Seq<char>, end: int) -> int
    decreases end,
{
    if end > 0 && s[end - 1] != '/' {
        component_start(s, end - 1)
    } else {
        end
    }
}

/// The bounds of the last named component of `s[..end]`: trailing separators and `.`
/// components are passed over, and a last component `..` names nothing.
pub open spec fn file_name_bounds(s: Seq<char>, end: int) -> Option<(int, int)>
    decreases end,
{
    let e = strip_separators(s, end);
    if e <= 0 {
        None
    } else {
        let b = component_start(s, e);
        if s.subrange(b, e) == seq!['.'] {
            if 0 <= b < end {
                file_name_bounds(s, b)
            } else {
                None
            }
        } else if s.subrange(b, e) == seq!['.', '.'] {
            None
        } else {
            Some((b, e))
        }
    }
}

/// The file name of path `s` (what `Path::file_name` gives).
pub open spec fn file_name_spec(s: Seq<char>) -> Option<Seq<char>> {
    match file_name_bounds(s, s.len() as int) {
        Some((b, e)) => Some(s.subrange(b, e)),
        None => None,
    }
}

/// The index of the last `.` in `f`, or -1.
pub open spec fn last_dot(f: Seq<char>) -> int
    decreases f.len(),
{
    if f.len() == 0 {
        -1
    } else if f.last() == '.' {
        f.len() - 1
    } else {
        last_dot(f.drop_last())
    }
}

/// The extension of path `s` (what `Path::extension` gives): what follows the last `.` of
/// the file name, unless that `.` begins the name or there is none.
pub open spec fn extension_spec(s: Seq<char>) -> Option<Seq<char>> {
    match file_name_spec(s) {
        Some(f) => if last_dot(f) <= 0 {
            None
        } else {
            Some(f.subrange(last_dot(f) + 1, f.len() as int))
        },
        None => None,
    }
}

proof fn lemma_strip_separators(s: Seq<char>, end: int)
    requires
        0 <= end <= s.len(),
    ensures
        0 <= strip_separators(s, end) <= end,
        strip_separators(s, end) > 0 ==> s[strip_separators(s, end) - 1] != '/',
    decreases end,
{
    if end > 0 && s[end - 1] == '/' {
        lemma_strip_separators(s, end - 1);
    }
}

proof fn lemma_component_start(s: Seq<char>, end: int)
    requires
        0 <= end <= s.len(),
    ensures
        0 <= component_start(s, end) <= end,
        component_start(s, end) > 0 ==> s[component_start(s, end) - 1] == '/',
    decreases end,
{
    if end > 0 && s[end - 1] != '/' {
        lemma_component_start(s, end - 1);
    }
}

/// The bounds of the file name of `path`.
fn file_name_range(path: &str) -> (r: Option<(usize, usize)>)
    ensures
        match r {
            Some((b, e)) => file_name_bounds(path@, path@.len() as int) == Some((b as int, e as int))
                && b < e <= path@.len(),
            None => file_name_bounds(path@, path@.len() as int) is None,
        },
{
    let n = path.unicode_len();
    let mut end: usize = n;
    loop
        invariant
            n == path@.len(),
            0 <= end <= n,
            file_name_bounds(path@, n as int) == file_name_bounds(path@, end as int),
        decreases end,
    {
        let mut e: usize = end;
        while e > 0 && path.get_char(e - 1) == '/'
            invariant
                n == path@.len(),
                0 <= e <= end <= n,
                strip_separators(path@, end as int) == strip_separators(path@, e as int),
            decreases e,
        {
            e = e - 1;
        }
        proof {
            lemma_strip_separators(path@, e as int);
        }
        if e == 0 {
            return None;
        }
        let mut b: usize = e;
        while b > 0 && path.get_char(b - 1) != '/'
            invariant
                n == path@.len(),
                0 <= b <= e <= n,
                component_start(path@, e as int) == component_start(path@, b as int),
            decreases b,
        {
            b = b - 1;
        }
        proof {
            lemma_component_start(path@, b as int);
            assert(path@[e - 1] != '/');
        }
        let ghost c = path@.subrange(b as int, e as int);
        if e - b == 1 && path.get_char(b) == '.' {
            assert(c =~= seq!['.']);
            end = b;
        } else {
            assert(c != seq!['.']) by {
                if c == seq!['.'] {
                    assert(seq!['.'].len() == 1 && seq!['.'][0] == '.');
                    assert(c[0] == path@[b as int]);
                }
            }
            if e - b == 2 && path.get_char(b) == '.' && path.get_char(b + 1) == '.' {
                assert(c =~= seq!['.', '.']);
                return None;
            }
            assert(c != seq!['.', '.']) by {
                if c == seq!['.', '.'] {
                    assert(seq!['.', '.'].len() == 2 && seq!['.', '.'][0] == '.' && seq!['.', '.'][1] == '.');
                    assert(c[0] == path@[b as int]);
                    assert(c[1] == path@[b + 1]);
                }
            }
            return Some((b, e));
        }
    }
}

/// The file name of `path`, if it names one.
pub fn file_name<'a>(path: &'a str) -> (r: Option<&'a str>)
    ensures
        match r {
            Some(f) => file_name_spec(path@) == Some(f@),
            None => file_name_spec(path@) is None,
        },
{
    match file_name_range(path) {
        Some((b, e)) => Some(path.substring_char(b, e)),
        None => None,
    }
}

/// The extension of `path`, if it has one.
pub fn extension<'a>(path: &'a str) -> (r: Option<&'a str>)
    ensures
        match r {
            Some(x) => extension_spec(path@) == Some(x@),
            None => extension_spec(path@) is None,
        },
{
    let f = match file_name(path) {
        Some(f) => f,
        None => return None,
    };
    let n = f.unicode_len();
    let mut k: usize = n;
    assert(f@.subrange(0, n as int) =~= f@);
    while k > 0 && f.get_char(k - 1) != '.'
        invariant
            n == f@.len(),
            0 <= k <= n,
            last_dot(f@) == last_dot(f@.subrange(0, k as int)),
        decreases k,
    {
        assert(f@.subrange(0, k as int).drop_last() =~= f@.subrange(0, k - 1));
        k = k - 1;
    }
    proof {
        assert(f@.subrange(0, n as int) =~= f@);
        if k > 0 {
            assert(f@.subrange(0, k as int).last() == '.');
        }
    }
    if k <= 1 {
        return None;
    }
    Some(f.substring_char(k, n))
}

} // verus!
