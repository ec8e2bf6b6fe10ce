//! Character-level primitives of the XML reader.
//!
//! Each primitive exists twice: a spec function over `Seq<char>` that defines
//! what is read, and an executable twin proved to return exactly that.

use vstd::prelude::*;

verus! {

/// Whitespace accepted between XML tokens.
pub open spec fn is_ws(c: char) -> bool {
    c == ' ' || c == '\t' || c == '\r' || c == '\n'
}

/// Characters accepted inside element and attribute names.
pub open spec fn is_name_char(c: char) -> bool {
    ('a' as u32 <= c as u32 && c as u32 <= 'z' as u32)
        || ('A' as u32 <= c as u32 && c as u32 <= 'Z' as u32)
        || ('0' as u32 <= c as u32 && c as u32 <= '9' as u32)
        || c == '_' || c == ':' || c == '-' || c == '.'
}

/// First position at or after `i` that does not hold whitespace.
pub open spec fn skip_ws(s: Seq<char>, i: int) -> int
    decreases s.len() - i,
{
    if 0 <= i && i < s.len() && is_ws(s[i]) {
        skip_ws(s, i + 1)
    } else {
        i
    }
}

/// First position at or after `i` that holds `q`, if any.
pub open spec fn find_char(s: Seq<char>, i: int, q: char) -> Option<int>
    decreases s.len() - i,
{
    if 0 <= i && i < s.len() {
        if s[i] == q {
            Some(i)
        } else {
            find_char(s, i + 1, q)
        }
    } else {
        None
    }
}

/// First position at or after `i` that does not hold a name character.
pub open spec fn name_end(s: Seq<char>, i: int) -> int
    decreases s.len() - i,
{
    if 0 <= i && i < s.len() && is_name_char(s[i]) {
        name_end(s, i + 1)
    } else {
        i
    }
}

/// `s` carries the literal `t` starting at position `i`.
pub open spec fn has_lit(s: Seq<char>, i: int, t: Seq<char>) -> bool {
    0 <= i && i + t.len() <= s.len() && s.subrange(i, i + t.len() as int) == t
}

/// The attribute list as read: name/value pairs followed by the position of
/// the first character after the list (and after any trailing whitespace).
pub open spec fn parse_attrs(s: Seq<char>, i: int) -> Option<(Seq<(Seq<char>, Seq<char>)>, int)>
    decreases s.len() - i,
{
    let j = skip_ws(s, i);
    if j < s.len() && is_name_char(s[j]) {
        let e = name_end(s, j);
        let k = skip_ws(s, e);
        if k < s.len() && s[k] == '=' {
            let k2 = skip_ws(s, k + 1);
            if k2 < s.len() && (s[k2] == '"' || s[k2] == '\'') {
                match find_char(s, k2 + 1, s[k2]) {
                    Some(v) => if i < v + 1 <= s.len() {
                        match parse_attrs(s, v + 1) {
                            Some(rest) => Some(
                                (seq![(s.subrange(j, e), s.subrange(k2 + 1, v))] + rest.0, rest.1),
                            ),
                            None => None,
                        }
                    } else {
                        None
                    },
                    None => None,
                }
            } else {
                None
            }
        } else {
            None
        }
    } else {
        Some((Seq::empty(), j))
    }
}

/// The value bound to the first attribute called `nm`, if any.
pub open spec fn attr_lookup(attrs: Seq<(Seq<char>, Seq<char>)>, nm: Seq<char>) -> Option<
    Seq<char>,
>
    decreases attrs.len(),
{
    if attrs.len() == 0 {
        None
    } else if attrs[0].0 == nm {
        Some(attrs[0].1)
    } else {
        attr_lookup(attrs.drop_first(), nm)
    }
}

/// View of an attribute vector as the spec-level pair sequence.
pub open spec fn attrs_view(v: Seq<(String, String)>) -> Seq<(Seq<char>, Seq<char>)> {
    v.map_values(|p: (String, String)| (p.0@, p.1@))
}

// ---------------------------------------------------------------------------
// Executable twins.
// ---------------------------------------------------------------------------

/// Executable test for [`is_name_char`].
pub fn name_char(c: char) -> (b: bool)
    ensures
        b == is_name_char(c),
{
    ('a' as u32 <= c as u32 && c as u32 <= 'z' as u32)
        || ('A' as u32 <= c as u32 && c as u32 <= 'Z' as u32)
        || ('0' as u32 <= c as u32 && c as u32 <= '9' as u32)
        || c == '_' || c == ':' || c == '-' || c == '.'
}

/// Executable twin of [`skip_ws`].
pub fn skip_ws_at(s: &str, n: usize, i: usize) -> (r: usize)
    requires
        n == s@.len(),
        i <= n,
    ensures
        i <= r <= n,
        r as int == skip_ws(s@, i as int),
    decreases n - i,
{
    if i < n {
        let c = s.get_char(i);
        if c == ' ' || c == '\t' || c == '\r' || c == '\n' {
            return skip_ws_at(s, n, i + 1);
        }
    }
    i
}

/// Executable twin of [`find_char`].
pub fn find_char_at(s: &str, n: usize, i: usize, q: char) -> (r: Option<usize>)
    requires
        n == s@.len(),
        i <= n,
    ensures
        match find_char(s@, i as int, q) {
            Some(j) => r matches Some(v) && v as int == j && i <= v < n,
            None => r is None,
        },
    decreases n - i,
{
    if i < n {
        if s.get_char(i) == q {
            Some(i)
        } else {
            find_char_at(s, n, i + 1, q)
        }
    } else {
        None
    }
}

/// Executable twin of [`name_end`].
pub fn name_end_at(s: &str, n: usize, i: usize) -> (r: usize)
    requires
        n == s@.len(),
        i <= n,
    ensures
        i <= r <= n,
        r as int == name_end(s@, i as int),
    decreases n - i,
{
    if i < n && name_char(s.get_char(i)) {
        return name_end_at(s, n, i + 1);
    }
    i
}

/// Executable twin of [`has_lit`].
pub fn has_lit_at(s: &str, n: usize, i: usize, t: &str) -> (r: bool)
    requires
        n == s@.len(),
        i <= n,
    ensures
        r == has_lit(s@, i as int, t@),
{
    let m = t.unicode_len();
    if m > n - i {
        return false;
    }
    let mut j: usize = 0;
    while j < m
        invariant
            n == s@.len(),
            m == t@.len(),
            i + m <= n,
            j <= m,
            forall|k: int| 0 <= k < j ==> s@[i + k] == t@[k],
        decreases m - j,
    {
        if s.get_char(i + j) != t.get_char(j) {
            proof {
                assert(s@.subrange(i as int, i + m as int)[j as int] == s@[i + j]);
            }
            return false;
        }
        j += 1;
    }
    proof {
        assert(s@.subrange(i as int, i + m as int) =~= t@);
    }
    true
}

/// Executable string comparison by characters.
pub fn str_eq(a: &str, b: &str) -> (r: bool)
    ensures
        r == (a@ == b@),
{
    let la = a.unicode_len();
    let lb = b.unicode_len();
    if la != lb {
        return false;
    }
    let mut j: usize = 0;
    while j < la
        invariant
            la == a@.len(),
            lb == b@.len(),
            la == lb,
            j <= la,
            forall|k: int| 0 <= k < j ==> a@[k] == b@[k],
        decreases la - j,
    {
        if a.get_char(j) != b.get_char(j) {
            return false;
        }
        j += 1;
    }
    proof {
        assert(a@ =~= b@);
    }
    true
}

/// Executable twin of [`parse_attrs`].
pub fn parse_attrs_at(s: &str, n: usize, i: usize) -> (r: Option<(Vec<(String, String)>, usize)>)
    requires
        n == s@.len(),
        i <= n,
    ensures
        match parse_attrs(s@, i as int) {
            Some(p) => r matches Some(q) && attrs_view(q.0@) == p.0 && q.1 as int == p.1 && i
                <= q.1 <= n,
            None => r is None,
        },
    decreases n - i,
{
    let j = skip_ws_at(s, n, i);
    if j < n && name_char(s.get_char(j)) {
        let e = name_end_at(s, n, j);
        let k = skip_ws_at(s, n, e);
        if k < n && s.get_char(k) == '=' {
            let k2 = skip_ws_at(s, n, k + 1);
            if k2 < n {
                let q = s.get_char(k2);
                if q == '"' || q == '\'' {
                    match find_char_at(s, n, k2 + 1, q) {
                        Some(v) => {
                            match parse_attrs_at(s, n, v + 1) {
                                Some((rest, end)) => {
                                    let nm = s.substring_char(j, e).to_owned();
                                    let val = s.substring_char(k2 + 1, v).to_owned();
                                    let mut out = rest;
                                    let ghost tail = out@;
                                    out.insert(0, (nm, val));
                                    proof {
                                        assert(attrs_view(out@) =~= seq![
                                            (s@.subrange(j as int, e as int), s@.subrange(
                                                k2 + 1 as int,
                                                v as int,
                                            )),
                                        ] + attrs_view(tail));
                                    }
                                    Some((out, end))
                                },
                                None => None,
                            }
                        },
                        None => None,
                    }
                } else {
                    None
                }
            } else {
                None
            }
        } else {
            None
        }
    } else {
        proof {
            assert(attrs_view(Seq::<(String, String)>::empty()) =~= Seq::<
                (Seq<char>, Seq<char>),
            >::empty());
        }
        Some((Vec::new(), j))
    }
}

/// Executable twin of [`attr_lookup`], walking the vector from `idx`.
fn attr_lookup_from(attrs: &Vec<(String, String)>, idx: usize, nm: &str) -> (r: Option<String>)
    requires
        idx <= attrs@.len(),
    ensures
        match attr_lookup(attrs_view(attrs@).skip(idx as int), nm@) {
            Some(v) => r matches Some(x) && x@ == v,
            None => r is None,
        },
    decreases attrs@.len() - idx,
{
    if idx < attrs.len() {
        if str_eq(attrs[idx].0.as_str(), nm) {
            Some(attrs[idx].1.clone())
        } else {
            let r = attr_lookup_from(attrs, idx + 1, nm);
            proof {
                assert(attrs_view(attrs@).skip(idx as int).drop_first() =~= attrs_view(
                    attrs@,
                ).skip(idx + 1));
            }
            r
        }
    } else {
        None
    }
}

/// Executable twin of [`attr_lookup`].
pub fn attr_lookup_in(attrs: &Vec<(String, String)>, nm: &str) -> (r: Option<String>)
    ensures
        match attr_lookup(attrs_view(attrs@), nm@) {
            Some(v) => r matches Some(x) && x@ == v,
            None => r is None,
        },
{
    proof {
        assert(attrs_view(attrs@).skip(0) =~= attrs_view(attrs@));
    }
    attr_lookup_from(attrs, 0, nm)
}

} // verus!
