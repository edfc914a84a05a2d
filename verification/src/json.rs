use crate::text::push_char;
use vstd::prelude::*;

verus! {

/// The JSON string that stands for `s`: `s` between quotation marks, with
/// the characters escaped that JSON asks to be escaped.
pub uninterp spec fn json_string(s: Seq<char>) -> Seq<char>;

/// Writes a string as a JSON string.
///
/// Trusted: calls `serde_json::to_string` on the string slice. What it
/// gives depends on the text alone; it is named [`json_string`] here. The
/// call cannot fail: a string is written into a buffer in memory, and the
/// only errors of that path are those of the writer, which has none.
#[verifier::external_body]
fn to_json_string(s: &str) -> (text: String)
    ensures
        text@ == json_string(s@),
{
    serde_json::to_string(s).unwrap_or_default()
}

/// One member of a JSON object: the name, a colon, and the value as it is
/// already written.
pub open spec fn member(name: Seq<char>, value: Seq<char>) -> Seq<char> {
    json_string(name) + seq![':'] + value
}

/// Appends the JSON string that stands for `s` to `out`.
pub fn write_string(out: &mut String, s: &str)
    ensures
        final(out)@ == old(out)@ + json_string(s@),
{
    let text = to_json_string(s);
    out.append(text.as_str());
}

/// Appends a member of a JSON object to `out`: the name, a colon, and the
/// JSON string that stands for `value`.
pub fn write_text_member(out: &mut String, name: &str, value: &str)
    ensures
        final(out)@ == old(out)@ + member(name@, json_string(value@)),
{
    write_string(out, name);
    push_char(out, ':');
    write_string(out, value);
    assert(out@ =~= old(out)@ + member(name@, json_string(value@)));
}

} // verus!
