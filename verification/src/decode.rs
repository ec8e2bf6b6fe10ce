//! Decoding the two status document schemas.
//!
//! The grammar of each document is defined by spec functions over
//! `Seq<char>`; the executable decoders are proved to return exactly what
//! those functions describe. Element names and the child-element order are
//! fixed by the schema; attributes may come in any order, and extra
//! attributes are ignored. A leading XML declaration and a DOCTYPE
//! declaration are tolerated, as the feed emits both.

use vstd::prelude::*;
use crate::error::FetchError;
use crate::model::{
    AuroraWatch, AuroraWatchView, Entry, EntryView, SiteStatus, SiteStatusView, State, StateView,
    Status, StatusView, Updated, UpdatedView,
};
use crate::parse::{
    attr_lookup, attr_lookup_in, attrs_view, find_char, find_char_at, has_lit, has_lit_at,
    is_name_char, name_char, parse_attrs, parse_attrs_at, skip_ws, skip_ws_at,
};

verus! {

// ---------------------------------------------------------------------------
// Grammar, as spec functions.
// ---------------------------------------------------------------------------

/// An opening tag `<name ...>` at `i`: its attributes, the position after the
/// tag, and whether the element was self-closing (`/>`).
pub open spec fn elem_open(s: Seq<char>, i: int, name: Seq<char>) -> Option<
    (Seq<(Seq<char>, Seq<char>)>, int, bool),
> {
    if 0 <= i && i < s.len() && s[i] == '<' && has_lit(s, i + 1, name) && !(i + 1 + name.len()
        < s.len() && is_name_char(s[i + 1 + name.len() as int])) {
        match parse_attrs(s, i + 1 + name.len() as int) {
            Some((attrs, j)) => if has_lit(s, j, "/>"@) {
                Some((attrs, j + 2, true))
            } else if j < s.len() && s[j] == '>' {
                Some((attrs, j + 1, false))
            } else {
                None
            },
            None => None,
        }
    } else {
        None
    }
}

/// A closing tag `</name>` at or after `i` (leading whitespace allowed): the
/// position after it.
pub open spec fn elem_close(s: Seq<char>, i: int, name: Seq<char>) -> Option<int> {
    let j = skip_ws(s, i);
    if j + 1 < s.len() && s[j] == '<' && s[j + 1] == '/' && has_lit(s, j + 2, name) {
        let k = skip_ws(s, j + 2 + name.len());
        if k < s.len() && s[k] == '>' {
            Some(k + 1)
        } else {
            None
        }
    } else {
        None
    }
}

/// An element whose content is plain text: the text and the position after
/// the closing tag. A self-closing element carries the empty text.
pub open spec fn text_elem(s: Seq<char>, i: int, name: Seq<char>) -> Option<(Seq<char>, int)> {
    let j0 = skip_ws(s, i);
    match elem_open(s, j0, name) {
        Some((_attrs, j, closed)) => if closed {
            Some((Seq::<char>::empty(), j))
        } else {
            match find_char(s, j, '<') {
                Some(t) => match elem_close(s, t, name) {
                    Some(e) => Some((s.subrange(j, t), e)),
                    None => None,
                },
                None => None,
            }
        },
        None => None,
    }
}

/// The prolog: optional whitespace, an optional XML declaration, and an
/// optional DOCTYPE declaration. Yields the position of the root element.
pub open spec fn prolog_end(s: Seq<char>) -> Option<int> {
    let i0 = skip_ws(s, 0);
    match (if has_lit(s, i0, "<?"@) {
        match find_char(s, i0, '>') {
            Some(g) => Some(skip_ws(s, g + 1)),
            None => None,
        }
    } else {
        Some(i0)
    }) {
        Some(i1) => if has_lit(s, i1, "<!"@) {
            match find_char(s, i1, '>') {
                Some(g) => Some(skip_ws(s, g + 1)),
                None => None,
            }
        } else {
            Some(i1)
        },
        None => None,
    }
}

/// A `state` element: attributes `name`, `value`, `color`, and the element's
/// own text content as the description.
pub open spec fn state_elem(s: Seq<char>, i: int) -> Option<(StateView, int)> {
    let j0 = skip_ws(s, i);
    match elem_open(s, j0, "state"@) {
        Some((attrs, j, closed)) => match (
            attr_lookup(attrs, "name"@),
            attr_lookup(attrs, "value"@),
            attr_lookup(attrs, "color"@),
        ) {
            (Some(nm), Some(val), Some(col)) => if closed {
                Some(
                    (
                        StateView {
                            name: nm,
                            value: val,
                            color: col,
                            description: Seq::<char>::empty(),
                        },
                        j,
                    ),
                )
            } else {
                match find_char(s, j, '<') {
                    Some(t) => match elem_close(s, t, "state"@) {
                        Some(e) => Some(
                            (
                                StateView {
                                    name: nm,
                                    value: val,
                                    color: col,
                                    description: s.subrange(j, t),
                                },
                                e,
                            ),
                        ),
                        None => None,
                    },
                    None => None,
                }
            },
            _ => None,
        },
        None => None,
    }
}

/// A `current` or `previous` element: a wrapper around one `state`.
pub open spec fn entry_elem(s: Seq<char>, i: int, name: Seq<char>) -> Option<(EntryView, int)> {
    let j0 = skip_ws(s, i);
    match elem_open(s, j0, name) {
        Some((_attrs, j, closed)) => if closed {
            None
        } else {
            match state_elem(s, j) {
                Some((st, e)) => match elem_close(s, e, name) {
                    Some(e2) => Some((EntryView { state: st }, e2)),
                    None => None,
                },
                None => None,
            }
        },
        None => None,
    }
}

/// An `updated` element wrapping one `datetime` text element.
pub open spec fn updated_elem(s: Seq<char>, i: int) -> Option<(UpdatedView, int)> {
    let j0 = skip_ws(s, i);
    match elem_open(s, j0, "updated"@) {
        Some((_attrs, j, closed)) => if closed {
            None
        } else {
            match text_elem(s, j, "datetime"@) {
                Some((dt, e)) => match elem_close(s, e, "updated"@) {
                    Some(e2) => Some((UpdatedView { datetime: dt }, e2)),
                    None => None,
                },
                None => None,
            }
        },
        None => None,
    }
}

/// A `site_status` element: four required attributes, no required content.
pub open spec fn site_status_elem(s: Seq<char>, i: int) -> Option<(SiteStatusView, int)> {
    let j0 = skip_ws(s, i);
    match elem_open(s, j0, "site_status"@) {
        Some((attrs, j, closed)) => match (
            attr_lookup(attrs, "project_id"@),
            attr_lookup(attrs, "site_id"@),
            attr_lookup(attrs, "site_url"@),
            attr_lookup(attrs, "status_id"@),
        ) {
            (Some(pid), Some(sid), Some(url), Some(stid)) => {
                let v = SiteStatusView {
                    project_id: pid,
                    site_id: sid,
                    site_url: url,
                    status_id: stid,
                };
                if closed {
                    Some((v, j))
                } else {
                    match elem_close(s, j, "site_status"@) {
                        Some(e) => Some((v, e)),
                        None => None,
                    }
                }
            },
            _ => None,
        },
        None => None,
    }
}

/// A whole `current_status` document.
pub open spec fn d_current_status(s: Seq<char>) -> Option<StatusView> {
    match prolog_end(s) {
        Some(i) => match elem_open(s, i, "current_status"@) {
            Some((attrs, j, closed)) => match attr_lookup(attrs, "api_version"@) {
                Some(api) => if closed {
                    None
                } else {
                    match updated_elem(s, j) {
                        Some((upd, j2)) => match site_status_elem(s, j2) {
                            Some((ss, j3)) => match elem_close(s, j3, "current_status"@) {
                                Some(j4) => if skip_ws(s, j4) == s.len() {
                                    Some(
                                        StatusView {
                                            api_version: api,
                                            updated: upd,
                                            site_status: ss,
                                        },
                                    )
                                } else {
                                    None
                                },
                                None => None,
                            },
                            None => None,
                        },
                        None => None,
                    }
                },
                None => None,
            },
            None => None,
        },
        None => None,
    }
}

/// A whole legacy `aurorawatch` document.
pub open spec fn d_aurorawatch(s: Seq<char>) -> Option<AuroraWatchView> {
    match prolog_end(s) {
        Some(i) => match elem_open(s, i, "aurorawatch"@) {
            Some((_attrs, j, closed)) => if closed {
                None
            } else {
                match entry_elem(s, j, "current"@) {
                    Some((cur, j2)) => match entry_elem(s, j2, "previous"@) {
                        Some((prev, j3)) => match text_elem(s, j3, "station"@) {
                            Some((stn, j4)) => match text_elem(s, j4, "updated"@) {
                                Some((upd, j5)) => match elem_close(s, j5, "aurorawatch"@) {
                                    Some(j6) => if skip_ws(s, j6) == s.len() {
                                        Some(
                                            AuroraWatchView {
                                                current: cur,
                                                previous: prev,
                                                station: stn,
                                                updated: upd,
                                            },
                                        )
                                    } else {
                                        None
                                    },
                                    None => None,
                                },
                                None => None,
                            },
                            None => None,
                        },
                        None => None,
                    },
                    None => None,
                }
            },
            None => None,
        },
        None => None,
    }
}

// ---------------------------------------------------------------------------
// Executable decoders, proved against the grammar.
// ---------------------------------------------------------------------------

/// Executable twin of [`elem_open`].
fn elem_open_x(s: &str, n: usize, i: usize, name: &str) -> (r: Option<
    (Vec<(String, String)>, usize, bool),
>)
    requires
        n == s@.len(),
        i <= n,
    ensures
        match elem_open(s@, i as int, name@) {
            Some(p) => r matches Some(q) && attrs_view(q.0@) == p.0 && q.1 as int == p.1 && q.2
                == p.2 && q.1 <= n,
            None => r is None,
        },
{
    proof {
        reveal_strlit("/>");
    }
    if i < n && s.get_char(i) == '<' && has_lit_at(s, n, i + 1, name) {
        let m = name.unicode_len();
        let after = i + 1 + m;
        let boundary_bad = after < n && name_char(s.get_char(after));
        if !boundary_bad {
            match parse_attrs_at(s, n, after) {
                Some((attrs, j)) => {
                    if has_lit_at(s, n, j, "/>") {
                        Some((attrs, j + 2, true))
                    } else if j < n && s.get_char(j) == '>' {
                        Some((attrs, j + 1, false))
                    } else {
                        None
                    }
                },
                None => None,
            }
        } else {
            None
        }
    } else {
        None
    }
}

/// Executable twin of [`elem_close`].
fn elem_close_x(s: &str, n: usize, i: usize, name: &str) -> (r: Option<usize>)
    requires
        n == s@.len(),
        i <= n,
    ensures
        match elem_close(s@, i as int, name@) {
            Some(p) => r matches Some(v) && v as int == p && v <= n,
            None => r is None,
        },
{
    let j = skip_ws_at(s, n, i);
    if j < n && j + 1 < n && s.get_char(j) == '<' && s.get_char(j + 1) == '/' && has_lit_at(
        s,
        n,
        j + 2,
        name,
    ) {
        let m = name.unicode_len();
        let k = skip_ws_at(s, n, j + 2 + m);
        if k < n && s.get_char(k) == '>' {
            Some(k + 1)
        } else {
            None
        }
    } else {
        None
    }
}

/// Executable twin of [`text_elem`].
fn text_elem_x(s: &str, n: usize, i: usize, name: &str) -> (r: Option<(String, usize)>)
    requires
        n == s@.len(),
        i <= n,
    ensures
        match text_elem(s@, i as int, name@) {
            Some(p) => r matches Some(q) && q.0@ == p.0 && q.1 as int == p.1 && q.1 <= n,
            None => r is None,
        },
{
    let j0 = skip_ws_at(s, n, i);
    match elem_open_x(s, n, j0, name) {
        Some((_, j, closed)) => {
            if closed {
                return Some((String::new(), j));
            }
            match find_char_at(s, n, j, '<') {
                Some(t) => match elem_close_x(s, n, t, name) {
                    Some(e) => Some((s.substring_char(j, t).to_owned(), e)),
                    None => None,
                },
                None => None,
            }
        },
        None => None,
    }
}

/// Executable twin of [`prolog_end`].
fn prolog_end_x(s: &str, n: usize) -> (r: Option<usize>)
    requires
        n == s@.len(),
    ensures
        match prolog_end(s@) {
            Some(p) => r matches Some(v) && v as int == p && v <= n,
            None => r is None,
        },
{
    let i0 = skip_ws_at(s, n, 0);
    let i1 = if has_lit_at(s, n, i0, "<?") {
        match find_char_at(s, n, i0, '>') {
            Some(g) => skip_ws_at(s, n, g + 1),
            None => {
                return None;
            },
        }
    } else {
        i0
    };
    if has_lit_at(s, n, i1, "<!") {
        match find_char_at(s, n, i1, '>') {
            Some(g) => Some(skip_ws_at(s, n, g + 1)),
            None => None,
        }
    } else {
        Some(i1)
    }
}

/// Executable twin of [`state_elem`].
fn state_elem_x(s: &str, n: usize, i: usize) -> (r: Option<(State, usize)>)
    requires
        n == s@.len(),
        i <= n,
    ensures
        match state_elem(s@, i as int) {
            Some(p) => r matches Some(q) && q.0@ == p.0 && q.1 as int == p.1 && q.1 <= n,
            None => r is None,
        },
{
    let j0 = skip_ws_at(s, n, i);
    match elem_open_x(s, n, j0, "state") {
        Some((attrs, j, closed)) => {
            let nm = match attr_lookup_in(&attrs, "name") {
                Some(x) => x,
                None => {
                    return None;
                },
            };
            let val = match attr_lookup_in(&attrs, "value") {
                Some(x) => x,
                None => {
                    return None;
                },
            };
            let col = match attr_lookup_in(&attrs, "color") {
                Some(x) => x,
                None => {
                    return None;
                },
            };
            if closed {
                return Some(
                    (State { name: nm, value: val, color: col, description: String::new() }, j),
                );
            }
            match find_char_at(s, n, j, '<') {
                Some(t) => match elem_close_x(s, n, t, "state") {
                    Some(e) => Some(
                        (
                            State {
                                name: nm,
                                value: val,
                                color: col,
                                description: s.substring_char(j, t).to_owned(),
                            },
                            e,
                        ),
                    ),
                    None => None,
                },
                None => None,
            }
        },
        None => None,
    }
}

/// Executable twin of [`entry_elem`].
fn entry_elem_x(s: &str, n: usize, i: usize, name: &str) -> (r: Option<(Entry, usize)>)
    requires
        n == s@.len(),
        i <= n,
    ensures
        match entry_elem(s@, i as int, name@) {
            Some(p) => r matches Some(q) && q.0@ == p.0 && q.1 as int == p.1 && q.1 <= n,
            None => r is None,
        },
{
    let j0 = skip_ws_at(s, n, i);
    match elem_open_x(s, n, j0, name) {
        Some((_, j, closed)) => {
            if closed {
                return None;
            }
            let (st, e) = match state_elem_x(s, n, j) {
                Some(x) => x,
                None => {
                    return None;
                },
            };
            match elem_close_x(s, n, e, name) {
                Some(e2) => Some((Entry { state: st }, e2)),
                None => None,
            }
        },
        None => None,
    }
}

/// Executable twin of [`updated_elem`].
fn updated_elem_x(s: &str, n: usize, i: usize) -> (r: Option<(Updated, usize)>)
    requires
        n == s@.len(),
        i <= n,
    ensures
        match updated_elem(s@, i as int) {
            Some(p) => r matches Some(q) && q.0@ == p.0 && q.1 as int == p.1 && q.1 <= n,
            None => r is None,
        },
{
    let j0 = skip_ws_at(s, n, i);
    match elem_open_x(s, n, j0, "updated") {
        Some((_, j, closed)) => {
            if closed {
                return None;
            }
            let (dt, e) = match text_elem_x(s, n, j, "datetime") {
                Some(x) => x,
                None => {
                    return None;
                },
            };
            match elem_close_x(s, n, e, "updated") {
                Some(e2) => Some((Updated { datetime: dt }, e2)),
                None => None,
            }
        },
        None => None,
    }
}

/// Executable twin of [`site_status_elem`].
fn site_status_elem_x(s: &str, n: usize, i: usize) -> (r: Option<(SiteStatus, usize)>)
    requires
        n == s@.len(),
        i <= n,
    ensures
        match site_status_elem(s@, i as int) {
            Some(p) => r matches Some(q) && q.0@ == p.0 && q.1 as int == p.1 && q.1 <= n,
            None => r is None,
        },
{
    let j0 = skip_ws_at(s, n, i);
    match elem_open_x(s, n, j0, "site_status") {
        Some((attrs, j, closed)) => {
            let pid = match attr_lookup_in(&attrs, "project_id") {
                Some(x) => x,
                None => {
                    return None;
                },
            };
            let sid = match attr_lookup_in(&attrs, "site_id") {
                Some(x) => x,
                None => {
                    return None;
                },
            };
            let url = match attr_lookup_in(&attrs, "site_url") {
                Some(x) => x,
                None => {
                    return None;
                },
            };
            let stid = match attr_lookup_in(&attrs, "status_id") {
                Some(x) => x,
                None => {
                    return None;
                },
            };
            let v = SiteStatus { project_id: pid, site_id: sid, site_url: url, status_id: stid };
            if closed {
                return Some((v, j));
            }
            match elem_close_x(s, n, j, "site_status") {
                Some(e) => Some((v, e)),
                None => None,
            }
        },
        None => None,
    }
}

/// The `current_status` pipeline without the error wrapping.
fn current_status_doc(s: &str, n: usize) -> (r: Option<Status>)
    requires
        n == s@.len(),
    ensures
        match d_current_status(s@) {
            Some(v) => r matches Some(st) && st@ == v,
            None => r is None,
        },
{
    let i = match prolog_end_x(s, n) {
        Some(x) => x,
        None => {
            return None;
        },
    };
    match elem_open_x(s, n, i, "current_status") {
        Some((attrs, j, closed)) => {
            let api = match attr_lookup_in(&attrs, "api_version") {
                Some(x) => x,
                None => {
                    return None;
                },
            };
            if closed {
                return None;
            }
            let (upd, j2) = match updated_elem_x(s, n, j) {
                Some(x) => x,
                None => {
                    return None;
                },
            };
            let (ss, j3) = match site_status_elem_x(s, n, j2) {
                Some(x) => x,
                None => {
                    return None;
                },
            };
            let j4 = match elem_close_x(s, n, j3, "current_status") {
                Some(x) => x,
                None => {
                    return None;
                },
            };
            if skip_ws_at(s, n, j4) == n {
                Some(Status { api_version: api, updated: upd, site_status: ss })
            } else {
                None
            }
        },
        None => None,
    }
}

/// The `aurorawatch` pipeline without the error wrapping.
fn aurorawatch_doc(s: &str, n: usize) -> (r: Option<AuroraWatch>)
    requires
        n == s@.len(),
    ensures
        match d_aurorawatch(s@) {
            Some(v) => r matches Some(w) && w@ == v,
            None => r is None,
        },
{
    let i = match prolog_end_x(s, n) {
        Some(x) => x,
        None => {
            return None;
        },
    };
    match elem_open_x(s, n, i, "aurorawatch") {
        Some((_, j, closed)) => {
            if closed {
                return None;
            }
            let (cur, j2) = match entry_elem_x(s, n, j, "current") {
                Some(x) => x,
                None => {
                    return None;
                },
            };
            let (prev, j3) = match entry_elem_x(s, n, j2, "previous") {
                Some(x) => x,
                None => {
                    return None;
                },
            };
            let (stn, j4) = match text_elem_x(s, n, j3, "station") {
                Some(x) => x,
                None => {
                    return None;
                },
            };
            let (upd, j5) = match text_elem_x(s, n, j4, "updated") {
                Some(x) => x,
                None => {
                    return None;
                },
            };
            let j6 = match elem_close_x(s, n, j5, "aurorawatch") {
                Some(x) => x,
                None => {
                    return None;
                },
            };
            if skip_ws_at(s, n, j6) == n {
                Some(AuroraWatch { current: cur, previous: prev, station: stn, updated: upd })
            } else {
                None
            }
        },
        None => None,
    }
}

/// Decode a response body against the `current_status` schema.
///
/// Succeeds exactly on the bodies the grammar [`d_current_status`] accepts,
/// and then returns the fully populated record it describes; on every other
/// body it returns the `Decode` error.
pub fn decode_current_status(body: &str) -> (r: Result<Status, FetchError>)
    ensures
        match d_current_status(body@) {
            Some(v) => r matches Ok(st) && st@ == v,
            None => r matches Err(e) && e matches FetchError::Decode(d) && d@
                == "response body is not a valid current_status document"@,
        },
{
    let n = body.unicode_len();
    match current_status_doc(body, n) {
        Some(st) => Ok(st),
        None => Err(
            FetchError::Decode(
                String::from_str("response body is not a valid current_status document"),
            ),
        ),
    }
}

/// Decode a response body against the legacy `aurorawatch` schema.
///
/// Succeeds exactly on the bodies the grammar [`d_aurorawatch`] accepts, and
/// then returns the fully populated record it describes; on every other body
/// it returns the `Decode` error.
pub fn decode_aurorawatch(body: &str) -> (r: Result<AuroraWatch, FetchError>)
    ensures
        match d_aurorawatch(body@) {
            Some(v) => r matches Ok(w) && w@ == v,
            None => r matches Err(e) && e matches FetchError::Decode(d) && d@
                == "response body is not a valid aurorawatch document"@,
        },
{
    let n = body.unicode_len();
    match aurorawatch_doc(body, n) {
        Some(w) => Ok(w),
        None => Err(
            FetchError::Decode(
                String::from_str("response body is not a valid aurorawatch document"),
            ),
        ),
    }
}

} // verus!
