//! JSON texts that tools hand to each other.
use crate::ids::ThreadId;
use crate::ids::law_thread_id_text_is_plain;
use vstd::prelude::*;

verus! {

/// A character that a JSON string holds unescaped, in the ASCII range.
pub open spec fn json_plain(c: char) -> bool {
    ' ' <= c <= '~' && c != '"' && c != '\\'
}

/// The indented form of a text that `serde_json` reads as JSON, nothing for any other text.
pub uninterp spec fn pretty_form(json: Seq<char>) -> Option<Seq<char>>;

/// Writes `{"target": ..}` with `serde_json`'s compact writer, which copies the printable ASCII
/// characters other than `"` and `\` into a string as they are.
#[verifier::external_body]
fn write_target(target: &str) -> (res: String)
    requires
        forall|i: int| 0 <= i < target@.len() ==> json_plain(#[trigger] target@[i]),
    ensures
        res@ == "{\"target\":\""@ + target@ + "\"}"@,
{
    let mut object = serde_json::Map::new();
    object.insert("target".to_string(), serde_json::Value::String(target.to_string()));
    serde_json::Value::Object(object).to_string()
}

/// Reads a JSON text with `serde_json::from_str` and writes what was read with
/// `serde_json::to_string_pretty`. The result is a function of the text alone.
#[verifier::external_body]
pub(crate) fn pretty_json(json: &str) -> (res: Option<String>)
    ensures
        res is Some ==> pretty_form(json@) == Some(res->Some_0@),
        res is None ==> pretty_form(json@) is None,
{
    let value = serde_json::from_str::<serde_json::Value>(json).ok()?;
    serde_json::to_string_pretty(&value).ok()
}

/// The arguments of a tool call that names a thread as its target.
pub fn target_arguments(target: ThreadId) -> (res: String)
    ensures
        res@ == "{\"target\":\""@ + target.text() + "\"}"@,
{
    let id: String = target.to_text();
    proof {
        law_thread_id_text_is_plain(target);
    }
    write_target(id.as_str())
}

} // verus!
