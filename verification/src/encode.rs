//! Re-encoding a `current_status` record, and the printed summary line.

use vstd::prelude::*;
use crate::model::{Status, StatusView};
use crate::parse::find_char;

verus! {

/// The quote character the encoder picks for an attribute value: double
/// quotes unless the value itself holds one.
pub open spec fn quote_of(v: Seq<char>) -> char {
    if find_char(v, 0, '"') is None {
        '"'
    } else {
        '\''
    }
}

/// An attribute value can be rendered without escaping: it is free of at
/// least one of the two quote characters.
pub open spec fn quotable(v: Seq<char>) -> bool {
    find_char(v, 0, '"') is None || find_char(v, 0, '\'') is None
}

/// The canonical rendering of one attribute value, quotes included.
pub open spec fn enc_quoted(v: Seq<char>) -> Seq<char> {
    seq![quote_of(v)] + v + seq![quote_of(v)]
}

/// The canonical rendering of a whole `current_status` record.
pub open spec fn enc_status(v: StatusView) -> Seq<char> {
    "<current_status api_version="@ + enc_quoted(v.api_version) + "><updated><datetime>"@
        + v.updated.datetime + "</datetime></updated><site_status project_id="@ + enc_quoted(
        v.site_status.project_id,
    ) + " site_id="@ + enc_quoted(v.site_status.site_id) + " site_url="@ + enc_quoted(
        v.site_status.site_url,
    ) + " status_id="@ + enc_quoted(v.site_status.status_id) + "/></current_status>"@
}

/// Every field of the record can be rendered so that decoding reads it back:
/// each attribute value is [`quotable`], and the timestamp text holds no tag
/// opener.
pub open spec fn status_encodable(v: StatusView) -> bool {
    &&& quotable(v.api_version)
    &&& quotable(v.site_status.project_id)
    &&& quotable(v.site_status.site_id)
    &&& quotable(v.site_status.site_url)
    &&& quotable(v.site_status.status_id)
    &&& find_char(v.updated.datetime, 0, '<') is None
}

/// Append one attribute value with the quotes [`enc_quoted`] picks.
fn append_quoted(out: &mut String, v: &String)
    ensures
        final(out)@ == old(out)@ + enc_quoted(v@),
{
    let n = v.as_str().unicode_len();
    match crate::parse::find_char_at(v.as_str(), n, 0, '"') {
        None => {
            proof {
                reveal_strlit("\"");
                assert("\""@ =~= seq![quote_of(v@)]);
            }
            out.append("\"");
            out.append(v.as_str());
            out.append("\"");
        },
        Some(_) => {
            proof {
                reveal_strlit("'");
                assert("'"@ =~= seq![quote_of(v@)]);
            }
            out.append("'");
            out.append(v.as_str());
            out.append("'");
        },
    }
    proof {
        assert(out@ =~= old(out)@ + enc_quoted(v@));
    }
}

/// Render a record back into the canonical `current_status` document.
pub fn encode_status(st: &Status) -> (r: String)
    ensures
        r@ == enc_status(st@),
{
    let mut out = String::from_str("<current_status api_version=");
    append_quoted(&mut out, &st.api_version);
    out.append("><updated><datetime>");
    out.append(st.updated.datetime.as_str());
    out.append("</datetime></updated><site_status project_id=");
    append_quoted(&mut out, &st.site_status.project_id);
    out.append(" site_id=");
    append_quoted(&mut out, &st.site_status.site_id);
    out.append(" site_url=");
    append_quoted(&mut out, &st.site_status.site_url);
    out.append(" status_id=");
    append_quoted(&mut out, &st.site_status.status_id);
    out.append("/></current_status>");
    proof {
        assert(out@ =~= enc_status(st@));
    }
    out
}

/// The one-line summary printed for a decoded record: `status <status_id>`.
pub fn status_summary(st: &Status) -> (r: String)
    ensures
        r@ == "status "@ + st.site_status.status_id@,
{
    let mut out = String::from_str("status ");
    out.append(st.site_status.status_id.as_str());
    out
}

} // verus!
