//! Small verified text utilities shared by the renderers: character-wise
//! string comparison, joining with a separator, splitting into lines, and
//! taking the leading path segment of a `::`-qualified name.

use vstd::prelude::*;

verus! {

use vstd::string::StrSliceExecFns;
use vstd::string::StringExecFns;

/// True when the two strings hold the same characters.
pub fn str_eq(a: &str, b: &str) -> (r: bool)
    ensures
        r == (a@ == b@),
{
    let n = a.unicode_len();
    if n != b.unicode_len() {
        return false;
    }
    let mut i: usize = 0;
    while i < n
        invariant
            i <= n,
            n == a@.len(),
            n == b@.len(),
            forall|j: int| 0 <= j < i ==> a@[j] == b@[j],
        decreases n - i,
    {
        if a.get_char(i) != b.get_char(i) {
            return false;
        }
        i = i + 1;
    }
    proof {
        assert(a@ =~= b@);
    }
    true
}

/// True when the two optional strings agree: both absent, or both present
/// with the same characters.
pub fn opt_str_eq(a: &Option<String>, b: &Option<String>) -> (r: bool)
    ensures
        r == (opt_view(a) == opt_view(b)),
{
    match (a, b) {
        (None, None) => true,
        (Some(x), Some(y)) => str_eq(x.as_str(), y.as_str()),
        _ => false,
    }
}

/// The characters of an optional string.
pub open spec fn opt_view(o: &Option<String>) -> Option<Seq<char>> {
    match o {
        Some(s) => Some(s@),
        None => None,
    }
}

/// The sequences each preceded by `sep`, concatenated.
pub open spec fn join_tail(parts: Seq<Seq<char>>, sep: Seq<char>) -> Seq<char>
    decreases parts.len(),
{
    if parts.len() == 0 {
        Seq::empty()
    } else {
        sep + parts[0] + join_tail(parts.drop_first(), sep)
    }
}

/// The sequences joined with `sep` between neighbours.
pub open spec fn join(parts: Seq<Seq<char>>, sep: Seq<char>) -> Seq<char> {
    if parts.len() == 0 {
        Seq::empty()
    } else {
        parts[0] + join_tail(parts.drop_first(), sep)
    }
}

/// The parts joined with `sep` between neighbours, as a fresh string.
pub fn join_with(parts: &Vec<String>, sep: &str) -> (r: String)
    ensures
        r@ == join(parts.deep_view(), sep@),
{
    let mut acc = String::new();
    if parts.len() == 0 {
        return acc;
    }
    acc.append(parts[0].as_str());
    let ghost dv = parts.deep_view();
    proof {
        assert(acc@ =~= dv[0]);
        assert(dv.drop_first() =~= dv.subrange(1, dv.len() as int));
    }
    let mut i: usize = 1;
    while i < parts.len()
        invariant
            1 <= i <= parts.len(),
            dv == parts.deep_view(),
            dv.len() == parts.len(),
            acc@ + join_tail(dv.subrange(i as int, dv.len() as int), sep@) == join(dv, sep@),
        decreases parts.len() - i,
    {
        let ghost rest = dv.subrange(i as int, dv.len() as int);
        let ghost prev = acc@;
        acc.append(sep);
        acc.append(parts[i].as_str());
        proof {
            assert(rest[0] == dv[i as int]);
            assert(rest.drop_first() =~= dv.subrange(i as int + 1, dv.len() as int));
            assert(join_tail(rest, sep@) == sep@ + rest[0] + join_tail(rest.drop_first(), sep@));
            assert(acc@ + join_tail(rest.drop_first(), sep@) =~= prev + join_tail(rest, sep@));
        }
        i = i + 1;
    }
    proof {
        assert(dv.subrange(dv.len() as int, dv.len() as int).len() == 0);
        assert(acc@ + Seq::<char>::empty() =~= acc@);
    }
    acc
}

/// The lines of `s` after an already-read partial line `cur`: characters are
/// taken one at a time, a newline closes the current line, and a nonempty
/// partial line at the end closes itself.
pub open spec fn split_lines_from(s: Seq<char>, cur: Seq<char>) -> Seq<Seq<char>>
    decreases s.len(),
{
    if s.len() == 0 {
        if cur.len() == 0 {
            Seq::empty()
        } else {
            seq![cur]
        }
    } else if s[0] == '\n' {
        seq![cur] + split_lines_from(s.drop_first(), Seq::empty())
    } else {
        split_lines_from(s.drop_first(), cur.push(s[0]))
    }
}

/// `s` split at each newline. A trailing newline closes the last line rather
/// than opening an empty one, so `"a\n"` has the single line `"a"`, and the
/// empty string has no lines.
pub open spec fn split_lines(s: Seq<char>) -> Seq<Seq<char>> {
    split_lines_from(s, Seq::empty())
}

/// The lines of `s`, as fresh strings.
pub fn lines_of(s: &str) -> (r: Vec<String>)
    ensures
        r.deep_view() == split_lines(s@),
{
    let n = s.unicode_len();
    let mut out: Vec<String> = Vec::new();
    let mut start: usize = 0;
    let mut i: usize = 0;
    proof {
        assert(s@.subrange(0, n as int) =~= s@);
        assert(s@.subrange(0, 0) =~= Seq::<char>::empty());
        assert(out.deep_view() =~= Seq::<Seq<char>>::empty());
        assert(Seq::<Seq<char>>::empty() + split_lines(s@) =~= split_lines(s@));
    }
    while i < n
        invariant
            start <= i <= n,
            n == s@.len(),
            out.deep_view() + split_lines_from(
                s@.subrange(i as int, n as int),
                s@.subrange(start as int, i as int),
            ) == split_lines(s@),
        decreases n - i,
    {
        let ghost rest = s@.subrange(i as int, n as int);
        let ghost cur = s@.subrange(start as int, i as int);
        proof {
            assert(rest[0] == s@[i as int]);
            assert(rest.drop_first() =~= s@.subrange(i as int + 1, n as int));
        }
        if s.get_char(i) == '\n' {
            let line = s.substring_char(start, i);
            let owned = String::from_str(line);
            let ghost prev = out.deep_view();
            out.push(owned);
            proof {
                assert(split_lines_from(rest, cur) == seq![cur] + split_lines_from(
                    rest.drop_first(),
                    Seq::empty(),
                ));
                assert(out.deep_view() =~= prev + seq![cur]);
                assert((prev + seq![cur]) + split_lines_from(rest.drop_first(), Seq::empty()) =~= prev
                    + (seq![cur] + split_lines_from(rest.drop_first(), Seq::empty())));
                assert(s@.subrange(i as int + 1, i as int + 1) =~= Seq::<char>::empty());
            }
            start = i + 1;
        } else {
            proof {
                assert(split_lines_from(rest, cur) == split_lines_from(
                    rest.drop_first(),
                    cur.push(s@[i as int]),
                ));
                assert(cur.push(s@[i as int]) =~= s@.subrange(start as int, i as int + 1));
            }
        }
        i = i + 1;
    }
    if start < n {
        let line = s.substring_char(start, n);
        let owned = String::from_str(line);
        let ghost prev = out.deep_view();
        out.push(owned);
        proof {
            let cur = s@.subrange(start as int, n as int);
            assert(s@.subrange(n as int, n as int).len() == 0);
            assert(split_lines_from(s@.subrange(n as int, n as int), cur) == seq![cur]);
            assert(out.deep_view() =~= prev + seq![cur]);
        }
    } else {
        proof {
            assert(s@.subrange(n as int, n as int).len() == 0);
            assert(s@.subrange(start as int, n as int).len() == 0);
            assert(out.deep_view() + Seq::<Seq<char>>::empty() =~= out.deep_view());
        }
    }
    out
}

/// The leading path segment of `s`: everything before the first `::`, or all
/// of `s` when no `::` occurs in it.
pub open spec fn first_segment(s: Seq<char>) -> Seq<char> {
    if exists|k: int| sep_at(s, k) {
        s.subrange(0, least_sep(s))
    } else {
        s
    }
}

/// A `::` separator starts at position `k` of `s`.
pub open spec fn sep_at(s: Seq<char>, k: int) -> bool {
    0 <= k && k + 1 < s.len() && s[k] == ':' && s[k + 1] == ':'
}

/// The position of the first `::` separator in `s`.
pub open spec fn least_sep(s: Seq<char>) -> int {
    choose|k: int| sep_at(s, k) && forall|j: int| 0 <= j < k ==> !sep_at(s, j)
}

/// Below any known separator position there is a least one.
proof fn lemma_least_sep(s: Seq<char>, w: int)
    requires
        sep_at(s, w),
    ensures
        sep_at(s, least_sep(s)),
        forall|j: int| 0 <= j < least_sep(s) ==> !sep_at(s, j),
    decreases w,
{
    if exists|j: int| 0 <= j < w && sep_at(s, j) {
        let v = choose|v: int| 0 <= v < w && sep_at(s, v);
        lemma_least_sep(s, v);
    } else {
        assert(sep_at(s, w) && forall|j: int| 0 <= j < w ==> !sep_at(s, j));
    }
}

/// The leading path segment of `s` as a fresh string: everything before the
/// first `::`, or all of `s` when no `::` occurs in it.
pub fn first_segment_of(s: &str) -> (r: String)
    ensures
        r@ == first_segment(s@),
{
    let n = s.unicode_len();
    let mut i: usize = 0;
    while i < n
        invariant
            i <= n,
            n == s@.len(),
            forall|j: int| 0 <= j < i ==> !sep_at(s@, j),
        decreases n - i,
    {
        if i + 1 < n && s.get_char(i) == ':' && s.get_char(i + 1) == ':' {
            let prefix = s.substring_char(0, i);
            proof {
                lemma_least_sep(s@, i as int);
                let ls = least_sep(s@);
                if ls < i {
                    assert(!sep_at(s@, ls));
                    assert(false);
                }
                if ls > i {
                    assert(!sep_at(s@, i as int));
                    assert(false);
                }
            }
            return String::from_str(prefix);
        }
        proof {
            assert(!sep_at(s@, i as int));
        }
        i = i + 1;
    }
    proof {
        assert(forall|k: int| !sep_at(s@, k));
    }
    String::from_str(s)
}

} // verus!
