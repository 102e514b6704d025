//! Unix paths as texts: joining, and a sibling with another name.

use vstd::prelude::*;

use crate::text::char_vec;

verus! {

/// A path that starts at the root.
pub open spec fn is_absolute(p: Seq<char>) -> bool {
    p.len() > 0 && p.first() == '/'
}

/// `p` taken relative to `base`; an absolute `p` stands for itself.
pub open spec fn joined(base: Seq<char>, p: Seq<char>) -> Seq<char> {
    if is_absolute(p) {
        p
    } else if base.len() == 0 || base.last() == '/' {
        base + p
    } else {
        base + seq!['/'] + p
    }
}

/// A path without the separators and the `.` components at its end.
pub open spec fn without_tail(p: Seq<char>) -> Seq<char>
    decreases p.len(),
{
    if p.len() > 0 && (p.last() == '/' || (p.len() > 1 && p.last() == '.' && p[p.len() - 2]
        == '/')) {
        without_tail(p.drop_last())
    } else {
        p
    }
}

/// Where the last component of a path starts.
pub open spec fn name_start(p: Seq<char>) -> int
    decreases p.len(),
{
    if p.len() == 0 || p.last() == '/' {
        p.len() as int
    } else {
        name_start(p.drop_last())
    }
}

/// The final component of a path, unless it is the root, `.` or `..`.
pub open spec fn file_name(p: Seq<char>) -> Option<Seq<char>> {
    let t = without_tail(p);
    let name = t.skip(name_start(t));
    if name.len() == 0 || name == seq!['.'] || name == seq!['.', '.'] {
        None
    } else {
        Some(name)
    }
}

/// A path without its final component.
pub open spec fn parent(p: Seq<char>) -> Seq<char> {
    let t = without_tail(p);
    let q = without_tail(t.take(name_start(t)));
    if q.len() == 0 && is_absolute(p) {
        seq!['/']
    } else {
        q
    }
}

/// A path with another final component; a path that has none gets one.
pub open spec fn with_file_name(p: Seq<char>, name: Seq<char>) -> Seq<char> {
    if file_name(p) is Some {
        joined(parent(p), name)
    } else {
        joined(p, name)
    }
}

/// A path whose final component has a suffix.
pub open spec fn suffixed(p: Seq<char>, suffix: Seq<char>) -> Seq<char> {
    let name = match file_name(p) {
        Some(n) => n,
        None => "cap-cdts-backend"@,
    };
    with_file_name(p, name + suffix)
}

/// How long the first `n` characters are without the tail.
fn tail_start(chars: &Vec<char>, n: usize) -> (r: usize)
    requires
        n <= chars@.len(),
    ensures
        r <= n,
        chars@.take(r as int) == without_tail(chars@.take(n as int)),
{
    let mut k: usize = n;
    while k > 0 && (chars[k - 1] == '/' || (k > 1 && chars[k - 1] == '.' && chars[k - 2] == '/'))
        invariant
            k <= n <= chars@.len(),
            without_tail(chars@.take(k as int)) == without_tail(chars@.take(n as int)),
        decreases k,
    {
        assert(chars@.take(k as int).drop_last() =~= chars@.take(k - 1));
        k -= 1;
    }
    k
}

/// Where the last component of the first `n` characters starts.
fn find_name_start(chars: &Vec<char>, n: usize) -> (r: usize)
    requires
        n <= chars@.len(),
    ensures
        r <= n,
        r == name_start(chars@.take(n as int)),
{
    let mut k: usize = n;
    while k > 0 && chars[k - 1] != '/'
        invariant
            k <= n <= chars@.len(),
            name_start(chars@.take(k as int)) == name_start(chars@.take(n as int)),
        decreases k,
    {
        assert(chars@.take(k as int).drop_last() =~= chars@.take(k - 1));
        k -= 1;
    }
    k
}

/// Joins two paths.
fn join(base: &str, p: &str) -> (r: String)
    ensures
        r@ == joined(base@, p@),
{
    let pn = p.unicode_len();
    if pn > 0 && p.get_char(0) == '/' {
        return p.to_owned();
    }
    let bn = base.unicode_len();
    let mut r = base.to_owned();
    if bn > 0 && base.get_char(bn - 1) != '/' {
        proof {
            reveal_strlit("/");
        }
        r.append("/");
        assert(r@ =~= base@ + seq!['/']);
    }
    r.append(p);
    r
}

/// `p`, taken relative to `base` unless it is absolute.
pub fn absolutize(base: &str, p: &str) -> (r: String)
    ensures
        r@ == joined(base@, p@),
{
    join(base, p)
}

/// `path` with a suffix on its final component.
pub fn with_suffix(path: &str, suffix: &str) -> (r: String)
    ensures
        r@ == suffixed(path@, suffix@),
{
    let chars = char_vec(path);
    let n = chars.len();
    assert(chars@.take(n as int) =~= path@);
    let end = tail_start(&chars, n);
    let start = find_name_start(&chars, end);
    let ghost t = without_tail(path@);
    let name = path.substring_char(start, end);
    assert(name@ =~= t.skip(name_start(t)));
    let named = if end == start {
        false
    } else if end - start == 1 {
        chars[start] != '.'
    } else if end - start == 2 {
        !(chars[start] == '.' && chars[start + 1] == '.')
    } else {
        true
    };
    assert(named == file_name(path@) is Some) by {
        assert(end - start == 1 ==> (name@[0] == chars@[start as int]));
        if name@ == seq!['.'] {
            assert(name@[0] == '.');
        }
        if name@ == seq!['.', '.'] {
            assert(name@[0] == '.' && name@[1] == '.');
        }
        if name@.len() == 1 && name@[0] == '.' {
            assert(name@ =~= seq!['.']);
        }
        if name@.len() == 2 && name@[0] == '.' && name@[1] == '.' {
            assert(name@ =~= seq!['.', '.']);
        }
    }
    if !named {
        let full = "cap-cdts-backend".to_owned().concat(suffix);
        return join(path, full.as_str());
    }
    let full = name.to_owned().concat(suffix);
    let up = tail_start(&chars, start);
    assert(chars@.take(start as int) =~= t.take(name_start(t)));
    if up == 0 && n > 0 && chars[0] == '/' {
        proof {
            reveal_strlit("/");
        }
        assert("/"@ =~= parent(path@));
        join("/", full.as_str())
    } else {
        let dir = path.substring_char(0, up);
        assert(dir@ =~= chars@.take(up as int));
        assert(dir@ == parent(path@));
        join(dir, full.as_str())
    }
}

/// An absolute path is its own place, and any path taken relative to an
/// absolute one is absolute.
pub proof fn lemma_joined_absolute(base: Seq<char>, p: Seq<char>)
    ensures
        is_absolute(p) ==> joined(base, p) == p,
        is_absolute(base) ==> is_absolute(joined(base, p)),
{
}

} // verus!
