//! The round-trip law: decoding reads back exactly what the encoder wrote.

use vstd::prelude::*;
use crate::parse::{
    attr_lookup, find_char, has_lit, is_name_char, is_ws, name_end, parse_attrs, skip_ws,
};
use crate::encode::{enc_quoted, enc_status, quotable, quote_of, status_encodable};
use crate::model::{StatusView, UpdatedView};
use crate::decode::{
    d_current_status, elem_close, elem_open, prolog_end, site_status_elem, text_elem,
    updated_elem,
};

verus! {

proof fn lemma_skip_ws_to(s: Seq<char>, i: int, j: int)
    requires
        0 <= i <= j <= s.len(),
        forall|k: int| i <= k < j ==> is_ws(s[k]),
        j == s.len() || !is_ws(s[j]),
    ensures
        skip_ws(s, i) == j,
    decreases j - i,
{
    if i < j {
        lemma_skip_ws_to(s, i + 1, j);
    }
}

proof fn lemma_name_end_to(s: Seq<char>, i: int, j: int)
    requires
        0 <= i <= j <= s.len(),
        forall|k: int| i <= k < j ==> is_name_char(s[k]),
        j == s.len() || !is_name_char(s[j]),
    ensures
        name_end(s, i) == j,
    decreases j - i,
{
    if i < j {
        lemma_name_end_to(s, i + 1, j);
    }
}

proof fn lemma_find_char_hit(s: Seq<char>, i: int, j: int, c: char)
    requires
        0 <= i <= j < s.len(),
        s[j] == c,
        forall|k: int| i <= k < j ==> s[k] != c,
    ensures
        find_char(s, i, c) == Some(j),
    decreases j - i,
{
    if i < j {
        lemma_find_char_hit(s, i + 1, j, c);
    }
}

proof fn lemma_find_char_none_elems(s: Seq<char>, i: int, c: char)
    requires
        0 <= i <= s.len(),
        find_char(s, i, c) is None,
    ensures
        forall|k: int| i <= k < s.len() ==> s[k] != c,
    decreases s.len() - i,
{
    if i < s.len() {
        lemma_find_char_none_elems(s, i + 1, c);
    }
}

proof fn lemma_not_lit(s: Seq<char>, i: int, t: Seq<char>, k: int)
    requires
        0 <= k < t.len(),
        0 <= i,
        s.len() < i + t.len() || (i + k < s.len() && s[i + k] != t[k]),
    ensures
        !has_lit(s, i, t),
{
    if i + t.len() <= s.len() && s.subrange(i, i + t.len() as int) == t {
        assert(s.subrange(i, i + t.len() as int)[k] == s[i + k]);
    }
}

/// The quote the encoder picks is a real quote character and does not occur
/// in the value itself.
proof fn lemma_quote_facts(v: Seq<char>)
    requires
        quotable(v),
    ensures
        quote_of(v) == '"' || quote_of(v) == '\'',
        forall|k: int| 0 <= k < v.len() ==> v[k] != quote_of(v),
{
    if find_char(v, 0, '"') is None {
        lemma_find_char_none_elems(v, 0, '"');
    } else {
        lemma_find_char_none_elems(v, 0, '\'');
    }
}

/// Reading one rendered attribute: a space, the name, `=`, the quoted value,
/// then whatever attribute list follows.
proof fn lemma_parse_attrs_cons(
    s: Seq<char>,
    i: int,
    nm: Seq<char>,
    val: Seq<char>,
    rest: Seq<(Seq<char>, Seq<char>)>,
    rend: int,
)
    requires
        0 <= i,
        nm.len() > 0,
        forall|k: int| 0 <= k < nm.len() ==> is_name_char(nm[k]),
        quotable(val),
        i + nm.len() + val.len() + 4 <= s.len(),
        s[i] == ' ',
        s.subrange(i + 1, i + 1 + nm.len() as int) == nm,
        s[i + 1 + nm.len()] == '=',
        s[i + 2 + nm.len()] == quote_of(val),
        s.subrange(i + 3 + nm.len(), i + 3 + nm.len() + val.len()) == val,
        s[i + 3 + nm.len() + val.len()] == quote_of(val),
        parse_attrs(s, i + 4 + nm.len() + val.len()) == Some((rest, rend)),
    ensures
        parse_attrs(s, i) == Some((seq![(nm, val)] + rest, rend)),
{
    let nl = nm.len() as int;
    let lv = val.len() as int;
    let q = quote_of(val);
    lemma_quote_facts(val);
    assert(s[i + 1] == nm[0]) by {
        assert(s.subrange(i + 1, i + 1 + nl)[0] == s[i + 1]);
    }
    lemma_skip_ws_to(s, i, i + 1);
    assert forall|k: int| i + 1 <= k < i + 1 + nl implies is_name_char(s[k]) by {
        assert(s.subrange(i + 1, i + 1 + nl)[k - (i + 1)] == s[k]);
    }
    lemma_name_end_to(s, i + 1, i + 1 + nl);
    lemma_skip_ws_to(s, i + 1 + nl, i + 1 + nl);
    lemma_skip_ws_to(s, i + 2 + nl, i + 2 + nl);
    assert forall|k: int| i + 3 + nl <= k < i + 3 + nl + lv implies s[k] != q by {
        assert(s.subrange(i + 3 + nl, i + 3 + nl + lv)[k - (i + 3 + nl)] == s[k]);
    }
    lemma_find_char_hit(s, i + 3 + nl, i + 3 + nl + lv, q);
    assert(parse_attrs(s, i) == Some((seq![(nm, val)] + rest, rend)));
}

/// Reading the end of an attribute list: the next character already closes
/// the tag.
proof fn lemma_parse_attrs_done(s: Seq<char>, i: int)
    requires
        0 <= i < s.len(),
        s[i] == '/' || s[i] == '>',
    ensures
        parse_attrs(s, i) == Some((Seq::<(Seq<char>, Seq<char>)>::empty(), i)),
{
    lemma_skip_ws_to(s, i, i);
}

proof fn lemma_concat_parts(x: Seq<char>, y: Seq<char>)
    ensures
        (x + y).subrange(0, x.len() as int) == x,
        (x + y).subrange(x.len() as int, (x + y).len() as int) == y,
{
    assert((x + y).subrange(0, x.len() as int) =~= x);
    assert((x + y).subrange(x.len() as int, (x + y).len() as int) =~= y);
}

proof fn lemma_subrange_of_prefix(s: Seq<char>, x: Seq<char>, a: int, b: int)
    requires
        x.len() <= s.len(),
        s.subrange(0, x.len() as int) == x,
        0 <= a <= b <= x.len(),
    ensures
        s.subrange(a, b) == x.subrange(a, b),
{
    assert(s.subrange(a, b) =~= x.subrange(a, b)) by {
        assert forall|k: int| 0 <= k < b - a implies s.subrange(a, b)[k] == x.subrange(a, b)[k] by {
            assert(s.subrange(0, x.len() as int)[a + k] == s[a + k]);
        }
    }
}

proof fn lemma_char_in(s: Seq<char>, off: int, seg: Seq<char>, k: int)
    requires
        0 <= off,
        off + seg.len() <= s.len(),
        s.subrange(off, off + seg.len() as int) == seg,
        0 <= k < seg.len(),
    ensures
        s[off + k] == seg[k],
{
    assert(s.subrange(off, off + seg.len() as int)[k] == s[off + k]);
}

proof fn lemma_sub_in(s: Seq<char>, off: int, seg: Seq<char>, a: int, b: int)
    requires
        0 <= off,
        off + seg.len() <= s.len(),
        s.subrange(off, off + seg.len() as int) == seg,
        0 <= a <= b <= seg.len(),
    ensures
        s.subrange(off + a, off + b) == seg.subrange(a, b),
{
    assert(s.subrange(off + a, off + b) =~= seg.subrange(a, b)) by {
        assert forall|k: int| 0 <= k < b - a implies s.subrange(off + a, off + b)[k]
            == seg.subrange(a, b)[k] by {
            assert(s.subrange(off, off + seg.len() as int)[a + k] == s[off + a + k]);
        }
    }
}

/// A quoted value sitting at `off`: the quote, the value, the quote.
proof fn lemma_quoted_at(s: Seq<char>, off: int, x: Seq<char>)
    requires
        0 <= off,
        off + x.len() + 2 <= s.len(),
        s.subrange(off, off + x.len() + 2) == enc_quoted(x),
    ensures
        s[off] == quote_of(x),
        s.subrange(off + 1, off + 1 + x.len() as int) == x,
        s[off + 1 + x.len() as int] == quote_of(x),
{
    let q = enc_quoted(x);
    assert(q.len() == x.len() + 2);
    assert(q[0] == quote_of(x));
    assert(q[x.len() as int + 1] == quote_of(x));
    lemma_char_in(s, off, q, 0);
    lemma_char_in(s, off, q, x.len() as int + 1);
    lemma_sub_in(s, off, q, 1, 1 + x.len() as int);
    assert(q.subrange(1, 1 + x.len() as int) =~= x);
}

/// Cutting an encoded document into its thirteen segments.
#[verifier::rlimit(100)]
proof fn lemma_segments(v: StatusView)
    ensures
        ({
            let s = enc_status(v);
            let la = v.api_version.len() as int;
            let ldt = v.updated.datetime.len() as int;
            let lp = v.site_status.project_id.len() as int;
            let lsi = v.site_status.site_id.len() as int;
            let lu = v.site_status.site_url.len() as int;
            let lst = v.site_status.status_id.len() as int;
            let b = la + ldt + lp + lsi + lu + lst;
            &&& s.len() == 152 + b
            &&& s.subrange(0, 28) == "<current_status api_version="@
            &&& s.subrange(28, 30 + la) == enc_quoted(v.api_version)
            &&& s.subrange(30 + la, 50 + la) == "><updated><datetime>"@
            &&& s.subrange(50 + la, 50 + la + ldt) == v.updated.datetime
            &&& s.subrange(50 + la + ldt, 95 + la + ldt)
                == "</datetime></updated><site_status project_id="@
            &&& s.subrange(95 + la + ldt, 97 + la + ldt + lp) == enc_quoted(
                v.site_status.project_id,
            )
            &&& s.subrange(97 + la + ldt + lp, 106 + la + ldt + lp) == " site_id="@
            &&& s.subrange(106 + la + ldt + lp, 108 + la + ldt + lp + lsi) == enc_quoted(
                v.site_status.site_id,
            )
            &&& s.subrange(108 + la + ldt + lp + lsi, 118 + la + ldt + lp + lsi) == " site_url="@
            &&& s.subrange(118 + la + ldt + lp + lsi, 120 + la + ldt + lp + lsi + lu)
                == enc_quoted(v.site_status.site_url)
            &&& s.subrange(120 + la + ldt + lp + lsi + lu, 131 + la + ldt + lp + lsi + lu)
                == " status_id="@
            &&& s.subrange(131 + la + ldt + lp + lsi + lu, 133 + b) == enc_quoted(
                v.site_status.status_id,
            )
            &&& s.subrange(133 + b, 152 + b) == "/></current_status>"@
        }),
{
    reveal_strlit("<current_status api_version=");
    reveal_strlit("><updated><datetime>");
    reveal_strlit("</datetime></updated><site_status project_id=");
    reveal_strlit(" site_id=");
    reveal_strlit(" site_url=");
    reveal_strlit(" status_id=");
    reveal_strlit("/></current_status>");
    let s = enc_status(v);
    let l1 = "<current_status api_version="@;
    let l2 = "><updated><datetime>"@;
    let l3 = "</datetime></updated><site_status project_id="@;
    let l4 = " site_id="@;
    let l5 = " site_url="@;
    let l6 = " status_id="@;
    let l7 = "/></current_status>"@;
    let qa_ = enc_quoted(v.api_version);
    let qp_ = enc_quoted(v.site_status.project_id);
    let qsi_ = enc_quoted(v.site_status.site_id);
    let qu_ = enc_quoted(v.site_status.site_url);
    let qst_ = enc_quoted(v.site_status.status_id);
    let dt = v.updated.datetime;
    assert(l1.len() == 28);
    assert(l2.len() == 20);
    assert(l3.len() == 45);
    assert(l4.len() == 9);
    assert(l5.len() == 10);
    assert(l6.len() == 11);
    assert(l7.len() == 19);
    assert(qa_.len() == v.api_version.len() + 2);
    assert(qp_.len() == v.site_status.project_id.len() + 2);
    assert(qsi_.len() == v.site_status.site_id.len() + 2);
    assert(qu_.len() == v.site_status.site_url.len() + 2);
    assert(qst_.len() == v.site_status.status_id.len() + 2);
    let x1 = l1 + qa_;
    let x2 = x1 + l2;
    let x3 = x2 + dt;
    let x4 = x3 + l3;
    let x5 = x4 + qp_;
    let x6 = x5 + l4;
    let x7 = x6 + qsi_;
    let x8 = x7 + l5;
    let x9 = x8 + qu_;
    let x10 = x9 + l6;
    let x11 = x10 + qst_;
    assert(s == x11 + l7);
    lemma_concat_parts(x11, l7);
    lemma_concat_parts(x10, qst_);
    lemma_subrange_of_prefix(s, x11, 0, x10.len() as int);
    lemma_subrange_of_prefix(s, x11, x10.len() as int, x11.len() as int);
    lemma_concat_parts(x9, l6);
    lemma_subrange_of_prefix(s, x10, 0, x9.len() as int);
    lemma_subrange_of_prefix(s, x10, x9.len() as int, x10.len() as int);
    lemma_concat_parts(x8, qu_);
    lemma_subrange_of_prefix(s, x9, 0, x8.len() as int);
    lemma_subrange_of_prefix(s, x9, x8.len() as int, x9.len() as int);
    lemma_concat_parts(x7, l5);
    lemma_subrange_of_prefix(s, x8, 0, x7.len() as int);
    lemma_subrange_of_prefix(s, x8, x7.len() as int, x8.len() as int);
    lemma_concat_parts(x6, qsi_);
    lemma_subrange_of_prefix(s, x7, 0, x6.len() as int);
    lemma_subrange_of_prefix(s, x7, x6.len() as int, x7.len() as int);
    lemma_concat_parts(x5, l4);
    lemma_subrange_of_prefix(s, x6, 0, x5.len() as int);
    lemma_subrange_of_prefix(s, x6, x5.len() as int, x6.len() as int);
    lemma_concat_parts(x4, qp_);
    lemma_subrange_of_prefix(s, x5, 0, x4.len() as int);
    lemma_subrange_of_prefix(s, x5, x4.len() as int, x5.len() as int);
    lemma_concat_parts(x3, l3);
    lemma_subrange_of_prefix(s, x4, 0, x3.len() as int);
    lemma_subrange_of_prefix(s, x4, x3.len() as int, x4.len() as int);
    lemma_concat_parts(x2, dt);
    lemma_subrange_of_prefix(s, x3, 0, x2.len() as int);
    lemma_subrange_of_prefix(s, x3, x2.len() as int, x3.len() as int);
    lemma_concat_parts(x1, l2);
    lemma_subrange_of_prefix(s, x2, 0, x1.len() as int);
    lemma_subrange_of_prefix(s, x2, x1.len() as int, x2.len() as int);
    lemma_concat_parts(l1, qa_);
    lemma_subrange_of_prefix(s, x1, 0, 28);
    lemma_subrange_of_prefix(s, x1, 28, x1.len() as int);
}


proof fn lemma_lit1()
    ensures
        ("<current_status api_version="@).len() == 28,
        ("current_status"@).len() == 14,
        ("api_version"@).len() == 11,
        ("<current_status api_version="@)[0] == '<',
        ("<current_status api_version="@)[1] == 'c',
        ("<current_status api_version="@)[15] == ' ',
        ("<current_status api_version="@)[27] == '=',
        ("<current_status api_version="@).subrange(1, 15) == "current_status"@,
        ("<current_status api_version="@).subrange(16, 27) == "api_version"@,
        forall|k: int| 0 <= k < 11 ==> is_name_char(("api_version"@)[k]),
{
    reveal_strlit("<current_status api_version=");
    reveal_strlit("current_status");
    reveal_strlit("api_version");
    assert(("<current_status api_version="@).subrange(1, 15) =~= "current_status"@);
    assert(("<current_status api_version="@).subrange(16, 27) =~= "api_version"@);
    assert forall|k: int| 0 <= k < 11 implies is_name_char(("api_version"@)[k]) by {
        assert(("api_version"@)[k] == ("<current_status api_version="@)[16 + k]);
    }
}

proof fn lemma_lit2()
    ensures
        ("><updated><datetime>"@).len() == 20,
        ("updated"@).len() == 7,
        ("datetime"@).len() == 8,
        ("><updated><datetime>"@)[0] == '>',
        ("><updated><datetime>"@)[1] == '<',
        ("><updated><datetime>"@)[9] == '>',
        ("><updated><datetime>"@)[10] == '<',
        ("><updated><datetime>"@)[19] == '>',
        ("><updated><datetime>"@).subrange(2, 9) == "updated"@,
        ("><updated><datetime>"@).subrange(11, 19) == "datetime"@,
{
    reveal_strlit("><updated><datetime>");
    reveal_strlit("updated");
    reveal_strlit("datetime");
    assert(("><updated><datetime>"@).subrange(2, 9) =~= "updated"@);
    assert(("><updated><datetime>"@).subrange(11, 19) =~= "datetime"@);
}

proof fn lemma_lit3()
    ensures
        ("</datetime></updated><site_status project_id="@).len() == 45,
        ("site_status"@).len() == 11,
        ("project_id"@).len() == 10,
        ("</datetime></updated><site_status project_id="@)[0] == '<',
        ("</datetime></updated><site_status project_id="@)[1] == '/',
        ("</datetime></updated><site_status project_id="@)[10] == '>',
        ("</datetime></updated><site_status project_id="@)[11] == '<',
        ("</datetime></updated><site_status project_id="@)[12] == '/',
        ("</datetime></updated><site_status project_id="@)[20] == '>',
        ("</datetime></updated><site_status project_id="@)[21] == '<',
        ("</datetime></updated><site_status project_id="@)[33] == ' ',
        ("</datetime></updated><site_status project_id="@)[44] == '=',
        ("</datetime></updated><site_status project_id="@).subrange(2, 10) == "datetime"@,
        ("</datetime></updated><site_status project_id="@).subrange(13, 20) == "updated"@,
        ("</datetime></updated><site_status project_id="@).subrange(22, 33) == "site_status"@,
        ("</datetime></updated><site_status project_id="@).subrange(34, 44) == "project_id"@,
        forall|k: int| 0 <= k < 10 ==> is_name_char(("project_id"@)[k]),
{
    reveal_strlit("</datetime></updated><site_status project_id=");
    reveal_strlit("datetime");
    reveal_strlit("updated");
    reveal_strlit("site_status");
    reveal_strlit("project_id");
    assert(("</datetime></updated><site_status project_id="@).subrange(2, 10) =~= "datetime"@);
    assert(("</datetime></updated><site_status project_id="@).subrange(13, 20) =~= "updated"@);
    assert(("</datetime></updated><site_status project_id="@).subrange(22, 33)
        =~= "site_status"@);
    assert(("</datetime></updated><site_status project_id="@).subrange(34, 44)
        =~= "project_id"@);
    assert forall|k: int| 0 <= k < 10 implies is_name_char(("project_id"@)[k]) by {
        assert(("project_id"@)[k] == ("</datetime></updated><site_status project_id="@)[34 + k]);
    }
}

proof fn lemma_lit4()
    ensures
        (" site_id="@).len() == 9,
        ("site_id"@).len() == 7,
        (" site_id="@)[0] == ' ',
        (" site_id="@)[8] == '=',
        (" site_id="@).subrange(1, 8) == "site_id"@,
        forall|k: int| 0 <= k < 7 ==> is_name_char(("site_id"@)[k]),
{
    reveal_strlit(" site_id=");
    reveal_strlit("site_id");
    assert((" site_id="@).subrange(1, 8) =~= "site_id"@);
    assert forall|k: int| 0 <= k < 7 implies is_name_char(("site_id"@)[k]) by {
        assert(("site_id"@)[k] == (" site_id="@)[1 + k]);
    }
}

proof fn lemma_lit5()
    ensures
        (" site_url="@).len() == 10,
        ("site_url"@).len() == 8,
        (" site_url="@)[0] == ' ',
        (" site_url="@)[9] == '=',
        (" site_url="@).subrange(1, 9) == "site_url"@,
        forall|k: int| 0 <= k < 8 ==> is_name_char(("site_url"@)[k]),
{
    reveal_strlit(" site_url=");
    reveal_strlit("site_url");
    assert((" site_url="@).subrange(1, 9) =~= "site_url"@);
    assert forall|k: int| 0 <= k < 8 implies is_name_char(("site_url"@)[k]) by {
        assert(("site_url"@)[k] == (" site_url="@)[1 + k]);
    }
}

proof fn lemma_lit6()
    ensures
        (" status_id="@).len() == 11,
        ("status_id"@).len() == 9,
        (" status_id="@)[0] == ' ',
        (" status_id="@)[10] == '=',
        (" status_id="@).subrange(1, 10) == "status_id"@,
        forall|k: int| 0 <= k < 9 ==> is_name_char(("status_id"@)[k]),
{
    reveal_strlit(" status_id=");
    reveal_strlit("status_id");
    assert((" status_id="@).subrange(1, 10) =~= "status_id"@);
    assert forall|k: int| 0 <= k < 9 implies is_name_char(("status_id"@)[k]) by {
        assert(("status_id"@)[k] == (" status_id="@)[1 + k]);
    }
}

proof fn lemma_lit7()
    ensures
        ("/></current_status>"@).len() == 19,
        ("/>"@).len() == 2,
        ("/>"@)[0] == '/',
        ("/></current_status>"@)[0] == '/',
        ("/></current_status>"@)[2] == '<',
        ("/></current_status>"@)[3] == '/',
        ("/></current_status>"@)[18] == '>',
        ("/></current_status>"@).subrange(0, 2) == "/>"@,
        ("/></current_status>"@).subrange(4, 18) == "current_status"@,
{
    reveal_strlit("/></current_status>");
    reveal_strlit("/>");
    reveal_strlit("current_status");
    assert(("/></current_status>"@).subrange(0, 2) =~= "/>"@);
    assert(("/></current_status>"@).subrange(4, 18) =~= "current_status"@);
}

proof fn lemma_lit_prolog()
    ensures
        ("<?"@).len() == 2,
        ("<!"@).len() == 2,
        ("<?"@)[1] == '?',
        ("<!"@)[1] == '!',
{
    reveal_strlit("<?");
    reveal_strlit("<!");
}

/// The attribute list the encoder writes for `site_status`, as the reader
/// sees it.
pub open spec fn site_status_attrs(v: StatusView) -> Seq<(Seq<char>, Seq<char>)> {
    seq![("project_id"@, v.site_status.project_id)] + (seq![("site_id"@, v.site_status.site_id)]
        + (seq![("site_url"@, v.site_status.site_url)] + (seq![
        ("status_id"@, v.site_status.status_id),
    ] + Seq::<(Seq<char>, Seq<char>)>::empty())))
}

#[verifier::rlimit(100)]
proof fn lemma_attr_status_id(v: StatusView)
    requires
        status_encodable(v),
    ensures
        ({
            let la = v.api_version.len() as int;
            let ldt = v.updated.datetime.len() as int;
            let lp = v.site_status.project_id.len() as int;
            let lsi = v.site_status.site_id.len() as int;
            let lu = v.site_status.site_url.len() as int;
            let lst = v.site_status.status_id.len() as int;
            parse_attrs(enc_status(v), 120 + la + ldt + lp + lsi + lu) == Some(
                (
                    seq![("status_id"@, v.site_status.status_id)] + Seq::<
                        (Seq<char>, Seq<char>),
                    >::empty(),
                    133 + la + ldt + lp + lsi + lu + lst,
                ),
            )
        }),
{
    lemma_segments(v);
    lemma_lit6();
    lemma_lit7();
    let s = enc_status(v);
    let st = v.site_status.status_id;
    let la = v.api_version.len() as int;
    let ldt = v.updated.datetime.len() as int;
    let lp = v.site_status.project_id.len() as int;
    let lsi = v.site_status.site_id.len() as int;
    let lu = v.site_status.site_url.len() as int;
    let lst = st.len() as int;
    let l6 = " status_id="@;
    let l7 = "/></current_status>"@;
    let p10 = 120 + la + ldt + lp + lsi + lu;
    let p12 = 133 + la + ldt + lp + lsi + lu + lst;
    lemma_char_in(s, p12, l7, 0);
    lemma_parse_attrs_done(s, p12);
    lemma_char_in(s, p10, l6, 0);
    lemma_sub_in(s, p10, l6, 1, 10);
    lemma_char_in(s, p10, l6, 10);
    lemma_quoted_at(s, p10 + 11, st);
    lemma_parse_attrs_cons(
        s,
        p10,
        "status_id"@,
        st,
        Seq::<(Seq<char>, Seq<char>)>::empty(),
        p12,
    );
}

#[verifier::rlimit(100)]
proof fn lemma_attr_site_url(v: StatusView)
    requires
        status_encodable(v),
    ensures
        ({
            let la = v.api_version.len() as int;
            let ldt = v.updated.datetime.len() as int;
            let lp = v.site_status.project_id.len() as int;
            let lsi = v.site_status.site_id.len() as int;
            let lu = v.site_status.site_url.len() as int;
            let lst = v.site_status.status_id.len() as int;
            parse_attrs(enc_status(v), 108 + la + ldt + lp + lsi) == Some(
                (
                    seq![("site_url"@, v.site_status.site_url)] + (seq![
                        ("status_id"@, v.site_status.status_id),
                    ] + Seq::<(Seq<char>, Seq<char>)>::empty()),
                    133 + la + ldt + lp + lsi + lu + lst,
                ),
            )
        }),
{
    lemma_attr_status_id(v);
    lemma_segments(v);
    lemma_lit5();
    let s = enc_status(v);
    let u = v.site_status.site_url;
    let la = v.api_version.len() as int;
    let ldt = v.updated.datetime.len() as int;
    let lp = v.site_status.project_id.len() as int;
    let lsi = v.site_status.site_id.len() as int;
    let lu = u.len() as int;
    let lst = v.site_status.status_id.len() as int;
    let l5 = " site_url="@;
    let p8 = 108 + la + ldt + lp + lsi;
    let p12 = 133 + la + ldt + lp + lsi + lu + lst;
    lemma_char_in(s, p8, l5, 0);
    lemma_sub_in(s, p8, l5, 1, 9);
    lemma_char_in(s, p8, l5, 9);
    lemma_quoted_at(s, p8 + 10, u);
    lemma_parse_attrs_cons(
        s,
        p8,
        "site_url"@,
        u,
        seq![("status_id"@, v.site_status.status_id)] + Seq::<(Seq<char>, Seq<char>)>::empty(),
        p12,
    );
}

#[verifier::rlimit(100)]
proof fn lemma_attr_site_id(v: StatusView)
    requires
        status_encodable(v),
    ensures
        ({
            let la = v.api_version.len() as int;
            let ldt = v.updated.datetime.len() as int;
            let lp = v.site_status.project_id.len() as int;
            let lsi = v.site_status.site_id.len() as int;
            let lu = v.site_status.site_url.len() as int;
            let lst = v.site_status.status_id.len() as int;
            parse_attrs(enc_status(v), 97 + la + ldt + lp) == Some(
                (
                    seq![("site_id"@, v.site_status.site_id)] + (seq![
                        ("site_url"@, v.site_status.site_url),
                    ] + (seq![("status_id"@, v.site_status.status_id)] + Seq::<
                        (Seq<char>, Seq<char>),
                    >::empty())),
                    133 + la + ldt + lp + lsi + lu + lst,
                ),
            )
        }),
{
    lemma_attr_site_url(v);
    lemma_segments(v);
    lemma_lit4();
    let s = enc_status(v);
    let si = v.site_status.site_id;
    let la = v.api_version.len() as int;
    let ldt = v.updated.datetime.len() as int;
    let lp = v.site_status.project_id.len() as int;
    let lsi = si.len() as int;
    let lu = v.site_status.site_url.len() as int;
    let lst = v.site_status.status_id.len() as int;
    let l4 = " site_id="@;
    let p6 = 97 + la + ldt + lp;
    let p12 = 133 + la + ldt + lp + lsi + lu + lst;
    lemma_char_in(s, p6, l4, 0);
    lemma_sub_in(s, p6, l4, 1, 8);
    lemma_char_in(s, p6, l4, 8);
    lemma_quoted_at(s, p6 + 9, si);
    lemma_parse_attrs_cons(
        s,
        p6,
        "site_id"@,
        si,
        seq![("site_url"@, v.site_status.site_url)] + (seq![
            ("status_id"@, v.site_status.status_id),
        ] + Seq::<(Seq<char>, Seq<char>)>::empty()),
        p12,
    );
}

#[verifier::rlimit(100)]
proof fn lemma_attr_project_id(v: StatusView)
    requires
        status_encodable(v),
    ensures
        ({
            let la = v.api_version.len() as int;
            let ldt = v.updated.datetime.len() as int;
            let lp = v.site_status.project_id.len() as int;
            let lsi = v.site_status.site_id.len() as int;
            let lu = v.site_status.site_url.len() as int;
            let lst = v.site_status.status_id.len() as int;
            parse_attrs(enc_status(v), 83 + la + ldt) == Some(
                (site_status_attrs(v), 133 + la + ldt + lp + lsi + lu + lst),
            )
        }),
{
    lemma_attr_site_id(v);
    lemma_segments(v);
    lemma_lit3();
    let s = enc_status(v);
    let p = v.site_status.project_id;
    let la = v.api_version.len() as int;
    let ldt = v.updated.datetime.len() as int;
    let lp = p.len() as int;
    let lsi = v.site_status.site_id.len() as int;
    let lu = v.site_status.site_url.len() as int;
    let lst = v.site_status.status_id.len() as int;
    let l3 = "</datetime></updated><site_status project_id="@;
    let o3 = 50 + la + ldt;
    let pa = 83 + la + ldt;
    let p12 = 133 + la + ldt + lp + lsi + lu + lst;
    lemma_char_in(s, o3, l3, 33);
    lemma_sub_in(s, o3, l3, 34, 44);
    lemma_char_in(s, o3, l3, 44);
    lemma_quoted_at(s, o3 + 45, p);
    lemma_parse_attrs_cons(
        s,
        pa,
        "project_id"@,
        p,
        seq![("site_id"@, v.site_status.site_id)] + (seq![
            ("site_url"@, v.site_status.site_url),
        ] + (seq![("status_id"@, v.site_status.status_id)] + Seq::<
            (Seq<char>, Seq<char>),
        >::empty())),
        p12,
    );
}

#[verifier::rlimit(100)]
proof fn lemma_attr_api(v: StatusView)
    requires
        status_encodable(v),
    ensures
        ({
            let la = v.api_version.len() as int;
            parse_attrs(enc_status(v), 15) == Some(
                (
                    seq![("api_version"@, v.api_version)] + Seq::<(Seq<char>, Seq<char>)>::empty(),
                    30 + la,
                ),
            )
        }),
{
    lemma_segments(v);
    lemma_lit1();
    lemma_lit2();
    let s = enc_status(v);
    let a = v.api_version;
    let la = a.len() as int;
    let l1 = "<current_status api_version="@;
    let l2 = "><updated><datetime>"@;
    lemma_char_in(s, 0, l1, 15);
    lemma_sub_in(s, 0, l1, 16, 27);
    lemma_char_in(s, 0, l1, 27);
    lemma_quoted_at(s, 28, a);
    lemma_char_in(s, 30 + la, l2, 0);
    lemma_parse_attrs_done(s, 30 + la);
    lemma_parse_attrs_cons(
        s,
        15,
        "api_version"@,
        a,
        Seq::<(Seq<char>, Seq<char>)>::empty(),
        30 + la,
    );
}

/// Looking one name up in an attribute list, one step at a time.
proof fn lemma_attr_lookup_cons(hd: (Seq<char>, Seq<char>), tl: Seq<(Seq<char>, Seq<char>)>, nm: Seq<char>)
    ensures
        attr_lookup(seq![hd] + tl, nm) == (if hd.0 == nm {
            Some(hd.1)
        } else {
            attr_lookup(tl, nm)
        }),
{
    let l = seq![hd] + tl;
    assert(l[0] == hd);
    assert(l.drop_first() =~= tl);
}

/// Looking the four required attributes up in the encoder's list.
#[verifier::rlimit(100)]
proof fn lemma_lookup_site_attrs(v: StatusView)
    ensures
        attr_lookup(site_status_attrs(v), "project_id"@) == Some(v.site_status.project_id),
        attr_lookup(site_status_attrs(v), "site_id"@) == Some(v.site_status.site_id),
        attr_lookup(site_status_attrs(v), "site_url"@) == Some(v.site_status.site_url),
        attr_lookup(site_status_attrs(v), "status_id"@) == Some(v.site_status.status_id),
{
    reveal_strlit("project_id");
    reveal_strlit("site_id");
    reveal_strlit("site_url");
    reveal_strlit("status_id");
    assert(("project_id"@).len() == 10);
    assert(("site_id"@).len() == 7);
    assert(("site_url"@).len() == 8);
    assert(("status_id"@).len() == 9);
    let p_ = ("project_id"@, v.site_status.project_id);
    let s_ = ("site_id"@, v.site_status.site_id);
    let u_ = ("site_url"@, v.site_status.site_url);
    let t_ = ("status_id"@, v.site_status.status_id);
    let e_ = Seq::<(Seq<char>, Seq<char>)>::empty();
    let a1 = seq![t_] + e_;
    let a2 = seq![u_] + a1;
    let a3 = seq![s_] + a2;
    let a4 = seq![p_] + a3;
    assert(a4 == site_status_attrs(v));
    lemma_attr_lookup_cons(p_, a3, "project_id"@);
    lemma_attr_lookup_cons(p_, a3, "site_id"@);
    lemma_attr_lookup_cons(s_, a2, "site_id"@);
    lemma_attr_lookup_cons(p_, a3, "site_url"@);
    lemma_attr_lookup_cons(s_, a2, "site_url"@);
    lemma_attr_lookup_cons(u_, a1, "site_url"@);
    lemma_attr_lookup_cons(p_, a3, "status_id"@);
    lemma_attr_lookup_cons(s_, a2, "status_id"@);
    lemma_attr_lookup_cons(u_, a1, "status_id"@);
    lemma_attr_lookup_cons(t_, e_, "status_id"@);
}

/// Reading back the `updated` element the encoder wrote.
#[verifier::rlimit(100)]
proof fn lemma_rt_updated(v: StatusView)
    requires
        status_encodable(v),
    ensures
        ({
            let la = v.api_version.len() as int;
            let ldt = v.updated.datetime.len() as int;
            updated_elem(enc_status(v), 31 + la) == Some(
                (UpdatedView { datetime: v.updated.datetime }, 71 + la + ldt),
            )
        }),
{
    lemma_segments(v);
    lemma_lit2();
    lemma_lit3();
    lemma_lit7();
    let s = enc_status(v);
    let dt = v.updated.datetime;
    let la = v.api_version.len() as int;
    let ldt = dt.len() as int;
    let l2 = "><updated><datetime>"@;
    let l3 = "</datetime></updated><site_status project_id="@;
    let p2 = 30 + la;
    let o3 = 50 + la + ldt;
    lemma_char_in(s, p2, l2, 1);
    lemma_skip_ws_to(s, p2 + 1, p2 + 1);
    lemma_sub_in(s, p2, l2, 2, 9);
    assert(has_lit(s, p2 + 2, "updated"@));
    lemma_char_in(s, p2, l2, 9);
    lemma_parse_attrs_done(s, p2 + 9);
    lemma_not_lit(s, p2 + 9, "/>"@, 0);
    assert(elem_open(s, p2 + 1, "updated"@) == Some(
        (Seq::<(Seq<char>, Seq<char>)>::empty(), p2 + 10, false),
    ));
    lemma_char_in(s, p2, l2, 10);
    lemma_skip_ws_to(s, p2 + 10, p2 + 10);
    lemma_sub_in(s, p2, l2, 11, 19);
    assert(has_lit(s, p2 + 11, "datetime"@));
    lemma_char_in(s, p2, l2, 19);
    lemma_parse_attrs_done(s, p2 + 19);
    lemma_not_lit(s, p2 + 19, "/>"@, 0);
    assert(elem_open(s, p2 + 10, "datetime"@) == Some(
        (Seq::<(Seq<char>, Seq<char>)>::empty(), p2 + 20, false),
    ));
    lemma_find_char_none_elems(dt, 0, '<');
    assert forall|k: int| p2 + 20 <= k < o3 implies s[k] != '<' by {
        lemma_char_in(s, p2 + 20, dt, k - (p2 + 20));
    }
    lemma_char_in(s, o3, l3, 0);
    lemma_find_char_hit(s, p2 + 20, o3, '<');
    lemma_skip_ws_to(s, o3, o3);
    lemma_char_in(s, o3, l3, 1);
    lemma_sub_in(s, o3, l3, 2, 10);
    assert(has_lit(s, o3 + 2, "datetime"@));
    lemma_char_in(s, o3, l3, 10);
    lemma_skip_ws_to(s, o3 + 10, o3 + 10);
    assert(elem_close(s, o3, "datetime"@) == Some(o3 + 11));
    assert(text_elem(s, p2 + 10, "datetime"@) == Some((dt, o3 + 11)));
    lemma_char_in(s, o3, l3, 11);
    lemma_skip_ws_to(s, o3 + 11, o3 + 11);
    lemma_char_in(s, o3, l3, 12);
    lemma_sub_in(s, o3, l3, 13, 20);
    assert(has_lit(s, o3 + 13, "updated"@));
    lemma_char_in(s, o3, l3, 20);
    lemma_skip_ws_to(s, o3 + 20, o3 + 20);
    assert(elem_close(s, o3 + 11, "updated"@) == Some(o3 + 21));
    assert(updated_elem(s, p2 + 1) == Some(
        (UpdatedView { datetime: dt }, o3 + 21),
    ));
}

/// Reading back the `site_status` element the encoder wrote.
#[verifier::rlimit(100)]
proof fn lemma_rt_site(v: StatusView)
    requires
        status_encodable(v),
    ensures
        ({
            let la = v.api_version.len() as int;
            let ldt = v.updated.datetime.len() as int;
            let lp = v.site_status.project_id.len() as int;
            let lsi = v.site_status.site_id.len() as int;
            let lu = v.site_status.site_url.len() as int;
            let lst = v.site_status.status_id.len() as int;
            let b = la + ldt + lp + lsi + lu + lst;
            site_status_elem(enc_status(v), 71 + la + ldt) == Some((v.site_status, 135 + b))
        }),
{
    lemma_segments(v);
    lemma_lit3();
    lemma_lit7();
    lemma_attr_project_id(v);
    lemma_lookup_site_attrs(v);
    let s = enc_status(v);
    let la = v.api_version.len() as int;
    let ldt = v.updated.datetime.len() as int;
    let lp = v.site_status.project_id.len() as int;
    let lsi = v.site_status.site_id.len() as int;
    let lu = v.site_status.site_url.len() as int;
    let lst = v.site_status.status_id.len() as int;
    let b = la + ldt + lp + lsi + lu + lst;
    let l3 = "</datetime></updated><site_status project_id="@;
    let l7 = "/></current_status>"@;
    let o3 = 50 + la + ldt;
    let p12 = 133 + b;
    lemma_char_in(s, o3, l3, 21);
    lemma_skip_ws_to(s, o3 + 21, o3 + 21);
    lemma_sub_in(s, o3, l3, 22, 33);
    assert(has_lit(s, o3 + 22, "site_status"@));
    lemma_char_in(s, o3, l3, 33);
    lemma_sub_in(s, p12, l7, 0, 2);
    assert(has_lit(s, p12, "/>"@));
    assert(elem_open(s, o3 + 21, "site_status"@) == Some(
        (site_status_attrs(v), p12 + 2, true),
    ));
    assert(site_status_elem(s, o3 + 21) == Some((v.site_status, p12 + 2)));
}

/// The round-trip law: a record every field of which the encoder can quote
/// (each attribute value is free of one of the two quote characters, and the
/// timestamp holds no tag opener) is decoded back, unchanged, from its own
/// encoding.
#[verifier::rlimit(100)]
pub proof fn lemma_status_round_trip(v: StatusView)
    requires
        status_encodable(v),
    ensures
        d_current_status(enc_status(v)) == Some(v),
{
    lemma_segments(v);
    lemma_lit1();
    lemma_lit2();
    lemma_lit7();
    lemma_lit_prolog();
    lemma_attr_api(v);
    lemma_rt_updated(v);
    lemma_rt_site(v);
    let s = enc_status(v);
    let la = v.api_version.len() as int;
    let ldt = v.updated.datetime.len() as int;
    let lp = v.site_status.project_id.len() as int;
    let lsi = v.site_status.site_id.len() as int;
    let lu = v.site_status.site_url.len() as int;
    let lst = v.site_status.status_id.len() as int;
    let b = la + ldt + lp + lsi + lu + lst;
    let l1 = "<current_status api_version="@;
    let l2 = "><updated><datetime>"@;
    let l7 = "/></current_status>"@;
    let p2 = 30 + la;
    let p12 = 133 + b;
    lemma_char_in(s, 0, l1, 0);
    lemma_char_in(s, 0, l1, 1);
    lemma_skip_ws_to(s, 0, 0);
    lemma_not_lit(s, 0, "<?"@, 1);
    lemma_not_lit(s, 0, "<!"@, 1);
    assert(prolog_end(s) == Some(0int));
    lemma_sub_in(s, 0, l1, 1, 15);
    assert(has_lit(s, 1, "current_status"@));
    lemma_char_in(s, 0, l1, 15);
    lemma_char_in(s, p2, l2, 0);
    lemma_not_lit(s, p2, "/>"@, 0);
    let a1 = seq![("api_version"@, v.api_version)] + Seq::<(Seq<char>, Seq<char>)>::empty();
    assert(elem_open(s, 0, "current_status"@) == Some((a1, p2 + 1, false)));
    lemma_attr_lookup_cons(
        ("api_version"@, v.api_version),
        Seq::<(Seq<char>, Seq<char>)>::empty(),
        "api_version"@,
    );
    assert(attr_lookup(a1, "api_version"@) == Some(v.api_version));
    lemma_char_in(s, p12, l7, 2);
    lemma_skip_ws_to(s, p12 + 2, p12 + 2);
    lemma_char_in(s, p12, l7, 3);
    lemma_sub_in(s, p12, l7, 4, 18);
    assert(has_lit(s, p12 + 4, "current_status"@));
    lemma_char_in(s, p12, l7, 18);
    lemma_skip_ws_to(s, p12 + 18, p12 + 18);
    assert(elem_close(s, p12 + 2, "current_status"@) == Some(p12 + 19));
    lemma_skip_ws_to(s, p12 + 19, p12 + 19);
    assert(d_current_status(s) == Some(
        StatusView {
            api_version: v.api_version,
            updated: UpdatedView { datetime: v.updated.datetime },
            site_status: v.site_status,
        },
    ));
    assert(StatusView {
        api_version: v.api_version,
        updated: UpdatedView { datetime: v.updated.datetime },
        site_status: v.site_status,
    } == v);
}

proof fn lemma_find_char_some_first(s: Seq<char>, i: int, c: char)
    requires
        find_char(s, i, c) is Some,
    ensures
        ({
            let j = find_char(s, i, c)->Some_0;
            &&& i <= j < s.len()
            &&& s[j] == c
            &&& forall|k: int| i <= k < j ==> s[k] != c
        }),
    decreases s.len() - i,
{
    if 0 <= i && i < s.len() && s[i] != c {
        lemma_find_char_some_first(s, i + 1, c);
    }
}

proof fn lemma_find_char_none_intro(s: Seq<char>, i: int, c: char)
    requires
        0 <= i <= s.len(),
        forall|k: int| i <= k < s.len() ==> s[k] != c,
    ensures
        find_char(s, i, c) is None,
    decreases s.len() - i,
{
    if i < s.len() {
        lemma_find_char_none_intro(s, i + 1, c);
    }
}

/// Every attribute value a successful read yields is free of the quote
/// character that delimited it.
proof fn lemma_parse_attrs_quotable(s: Seq<char>, i: int)
    requires
        parse_attrs(s, i) is Some,
    ensures
        forall|x: int|
            0 <= x < parse_attrs(s, i)->Some_0.0.len() ==> quotable(
                (#[trigger] parse_attrs(s, i)->Some_0.0[x]).1,
            ),
    decreases s.len() - i,
{
    let j = skip_ws(s, i);
    if j < s.len() && is_name_char(s[j]) {
        let e = name_end(s, j);
        let k = skip_ws(s, e);
        let k2 = skip_ws(s, k + 1);
        let q = s[k2];
        let vpos = find_char(s, k2 + 1, q)->Some_0;
        lemma_find_char_some_first(s, k2 + 1, q);
        let val = s.subrange(k2 + 1, vpos);
        assert forall|t: int| 0 <= t < val.len() implies val[t] != q by {
            assert(val[t] == s[k2 + 1 + t]);
        }
        lemma_find_char_none_intro(val, 0, q);
        lemma_parse_attrs_quotable(s, vpos + 1);
        let rest = parse_attrs(s, vpos + 1)->Some_0;
        assert forall|x: int|
            0 <= x < parse_attrs(s, i)->Some_0.0.len() implies quotable(
                (#[trigger] parse_attrs(s, i)->Some_0.0[x]).1,
            ) by {
            if x > 0 {
                assert(parse_attrs(s, i)->Some_0.0[x] == rest.0[x - 1]);
            }
        }
    }
}

/// A value the lookup returns sits in the list.
proof fn lemma_attr_lookup_found(attrs: Seq<(Seq<char>, Seq<char>)>, nm: Seq<char>, val: Seq<char>)
    requires
        attr_lookup(attrs, nm) == Some(val),
    ensures
        exists|x: int| 0 <= x < attrs.len() && (#[trigger] attrs[x]).1 == val,
    decreases attrs.len(),
{
    if attrs.len() > 0 {
        if attrs[0].0 == nm {
            assert((attrs[0]).1 == val);
        } else {
            lemma_attr_lookup_found(attrs.drop_first(), nm, val);
            let x0 = choose|x: int|
                0 <= x < attrs.drop_first().len() && (#[trigger] attrs.drop_first()[x]).1 == val;
            assert((attrs[x0 + 1]).1 == val);
        }
    }
}

proof fn lemma_lookup_quotable(attrs: Seq<(Seq<char>, Seq<char>)>, nm: Seq<char>, val: Seq<char>)
    requires
        attr_lookup(attrs, nm) == Some(val),
        forall|x: int| 0 <= x < attrs.len() ==> quotable((#[trigger] attrs[x]).1),
    ensures
        quotable(val),
{
    lemma_attr_lookup_found(attrs, nm, val);
}

/// The text a successful read yields holds no tag opener.
proof fn lemma_text_elem_clean(s: Seq<char>, i: int, name: Seq<char>, dt: Seq<char>, e: int)
    requires
        text_elem(s, i, name) == Some((dt, e)),
    ensures
        find_char(dt, 0, '<') is None,
{
    let j0 = skip_ws(s, i);
    let eo = elem_open(s, j0, name)->Some_0;
    if eo.2 {
        lemma_find_char_none_intro(dt, 0, '<');
    } else {
        let t = find_char(s, eo.1, '<')->Some_0;
        lemma_find_char_some_first(s, eo.1, '<');
        assert forall|k: int| 0 <= k < dt.len() implies dt[k] != '<' by {
            assert(dt[k] == s[eo.1 + k]);
        }
        lemma_find_char_none_intro(dt, 0, '<');
    }
}

/// The round-trip law over decoded documents: whatever record a well-formed
/// `current_status` document decodes to, re-encoding that record and decoding
/// again yields the same record.
#[verifier::rlimit(100)]
pub proof fn lemma_decode_then_encode(s: Seq<char>, v: StatusView)
    requires
        d_current_status(s) == Some(v),
    ensures
        status_encodable(v),
        d_current_status(enc_status(v)) == Some(v),
{
    let i = prolog_end(s)->Some_0;
    let ro = elem_open(s, i, "current_status"@)->Some_0;
    lemma_parse_attrs_quotable(s, i + 1 + ("current_status"@).len());
    lemma_lookup_quotable(ro.0, "api_version"@, v.api_version);
    let j0u = skip_ws(s, ro.1);
    let uo = elem_open(s, j0u, "updated"@)->Some_0;
    let te = text_elem(s, uo.1, "datetime"@)->Some_0;
    lemma_text_elem_clean(s, uo.1, "datetime"@, te.0, te.1);
    assert(v.updated.datetime == te.0);
    let j2 = updated_elem(s, ro.1)->Some_0.1;
    let j0s = skip_ws(s, j2);
    let so = elem_open(s, j0s, "site_status"@)->Some_0;
    lemma_parse_attrs_quotable(s, j0s + 1 + ("site_status"@).len());
    lemma_lookup_quotable(so.0, "project_id"@, v.site_status.project_id);
    lemma_lookup_quotable(so.0, "site_id"@, v.site_status.site_id);
    lemma_lookup_quotable(so.0, "site_url"@, v.site_status.site_url);
    lemma_lookup_quotable(so.0, "status_id"@, v.site_status.status_id);
    assert(status_encodable(v));
    lemma_status_round_trip(v);
}

} // verus!
