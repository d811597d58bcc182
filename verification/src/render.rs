//! The result writer's text side: renders the decoded envelope as a
//! configuration-style document, one `key = "value"` line per string field,
//! under a `[results]` section header. Writing the text to disk stays
//! outside this crate.

use vstd::prelude::*;
use crate::digits::{int_str, push_i32_dec};
use crate::model::Response;
use crate::strutil::push_char;

verus! {

/// How one character of a string value is written inside double quotes:
/// quotes, backslashes and the common control characters are escaped,
/// everything else stands for itself.
pub open spec fn esc_char(c: char) -> Seq<char> {
    if c == '"' {
        "\\\""@
    } else if c == '\\' {
        "\\\\"@
    } else if c == '\n' {
        "\\n"@
    } else if c == '\r' {
        "\\r"@
    } else if c == '\t' {
        "\\t"@
    } else {
        seq![c]
    }
}

/// A whole string value with each character escaped.
pub open spec fn escaped(s: Seq<char>) -> Seq<char>
    decreases s.len(),
{
    if s.len() == 0 {
        Seq::empty()
    } else {
        escaped(s.drop_last()) + esc_char(s.last())
    }
}

/// One `key = "value"` line.
pub open spec fn str_line(key: Seq<char>, val: Seq<char>) -> Seq<char> {
    key + " = \""@ + escaped(val) + "\"\n"@
}

/// The whole rendered document: the envelope's `status` line, then the
/// `[results]` section with every field of the record in order.
pub open spec fn spec_render(resp: Response) -> Seq<char> {
    str_line("status"@, resp.status@) + "\n[results]\n"@ + str_line("date"@, resp.results.date@)
        + str_line("sunrise"@, resp.results.sunrise@) + str_line("sunset"@, resp.results.sunset@)
        + str_line("first_light"@, resp.results.first_light@) + str_line(
        "last_light"@,
        resp.results.last_light@,
    ) + str_line("dawn"@, resp.results.dawn@) + str_line("dusk"@, resp.results.dusk@) + str_line(
        "solar_noon"@,
        resp.results.solar_noon@,
    ) + str_line("golden_hour"@, resp.results.golden_hour@) + str_line(
        "day_length"@,
        resp.results.day_length@,
    ) + str_line("timezone"@, resp.results.timezone@) + "utc_offset = "@ + int_str(
        resp.results.utc_offset as int,
    ) + "\n"@
}

fn append_escaped(out: &mut String, s: &str)
    ensures
        final(out)@ == old(out)@ + escaped(s@),
{
    let n = s.unicode_len();
    let mut i: usize = 0;
    while i < n
        invariant
            n == s@.len(),
            i <= n,
            out@ == old(out)@ + escaped(s@.subrange(0, i as int)),
        decreases n - i,
    {
        let c = s.get_char(i);
        if c == '"' {
            out.append("\\\"");
        } else if c == '\\' {
            out.append("\\\\");
        } else if c == '\n' {
            out.append("\\n");
        } else if c == '\r' {
            out.append("\\r");
        } else if c == '\t' {
            out.append("\\t");
        } else {
            push_char(out, c);
        }
        proof {
            assert(s@.subrange(0, i + 1).drop_last() =~= s@.subrange(0, i as int));
            assert(s@.subrange(0, i + 1).last() == s@[i as int]);
            assert(out@ =~= old(out)@ + escaped(s@.subrange(0, i + 1)));
        }
        i = i + 1;
    }
    proof {
        assert(s@.subrange(0, n as int) =~= s@);
    }
}

fn append_str_line(out: &mut String, key: &str, val: &str)
    ensures
        final(out)@ == old(out)@ + str_line(key@, val@),
{
    out.append(key);
    out.append(" = \"");
    append_escaped(out, val);
    out.append("\"\n");
    proof {
        assert(final(out)@ =~= old(out)@ + str_line(key@, val@));
    }
}

/// Renders the decoded envelope as the output document's full text,
/// exactly as `spec_render` lays it out.
pub fn render_toml(resp: &Response) -> (out: String)
    ensures
        out@ == spec_render(*resp),
{
    let mut out = String::new();
    append_str_line(&mut out, "status", resp.status.as_str());
    out.append("\n[results]\n");
    append_str_line(&mut out, "date", resp.results.date.as_str());
    append_str_line(&mut out, "sunrise", resp.results.sunrise.as_str());
    append_str_line(&mut out, "sunset", resp.results.sunset.as_str());
    append_str_line(&mut out, "first_light", resp.results.first_light.as_str());
    append_str_line(&mut out, "last_light", resp.results.last_light.as_str());
    append_str_line(&mut out, "dawn", resp.results.dawn.as_str());
    append_str_line(&mut out, "dusk", resp.results.dusk.as_str());
    append_str_line(&mut out, "solar_noon", resp.results.solar_noon.as_str());
    append_str_line(&mut out, "golden_hour", resp.results.golden_hour.as_str());
    append_str_line(&mut out, "day_length", resp.results.day_length.as_str());
    append_str_line(&mut out, "timezone", resp.results.timezone.as_str());
    out.append("utc_offset = ");
    push_i32_dec(&mut out, resp.results.utc_offset);
    out.append("\n");
    proof {
        assert(out@ =~= spec_render(*resp));
    }
    out
}

} // verus!
