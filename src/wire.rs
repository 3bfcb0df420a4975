//! The envelopes exchanged on actor pipes, one JSON value per line.
use vstd::prelude::*;
use vstd::string::*;

use crate::ids::ActorId;

verus! {

#[verifier::external_type_specification]
#[verifier::external_body]
pub struct ExJsonValue(serde_json::Value);

#[verifier::external_type_specification]
#[verifier::external_body]
#[verifier::reject_recursive_types(K)]
#[verifier::reject_recursive_types(V)]
#[verifier::reject_recursive_types(S)]
pub struct ExIndexMap<K, V, S>(indexmap::IndexMap<K, V, S>);

/// A payload message: the sender's id (stamped by the router), the
/// destination's id, and an opaque JSON payload.
pub struct Data {
    pub from: Option<ActorId>,
    pub to: ActorId,
    pub payload: serde_json::Value,
}

/// A spawn request: the program to run and its arguments, any of which may
/// hold the actor-id placeholder.
pub struct Props {
    pub executable: String,
    pub args: Vec<String>,
}

/// What the supervisor writes to an actor's input.
pub enum Message {
    Data(Data),
    /// The outcome of a spawn request, sent to the actor that asked.
    Spawned { id: Result<ActorId, String>, props: Props },
}

/// A diagnostic line from an actor's error stream; it is never routed.
pub struct LogMessage {
    pub level: String,
    pub message: String,
    pub tags: indexmap::IndexMap<String, serde_json::Value>,
}

/// The JSON object with the one field `key`, holding the string `text`.
pub uninterp spec fn string_field_object(key: Seq<char>, text: Seq<char>) -> serde_json::Value;

/// Relies on serde_json::Map::insert, serde_json::Value::String and
/// serde_json::Value::Object: builds the object `{key: text}`.
#[verifier::external_body]
pub(crate) fn make_string_field_object(key: String, text: String) -> (r: serde_json::Value)
    ensures
        r == string_field_object(key@, text@),
{
    let mut fields = serde_json::Map::new();
    fields.insert(key, serde_json::Value::String(text));
    serde_json::Value::Object(fields)
}

/// A line is one envelope's text followed by a newline; the text itself
/// holds no newline.
pub open spec fn framed(text: Seq<char>) -> Option<Seq<char>> {
    if text.contains('\n') {
        None
    } else {
        Some(text + seq!['\n'])
    }
}

/// Frames the JSON text of one envelope as a line, or refuses text that
/// holds a newline.
pub fn frame_line(text: String) -> (r: Option<String>)
    ensures
        match framed(text@) {
            Some(line) => r matches Some(s) && s@ == line,
            None => r is None,
        },
{
    let n = text.as_str().unicode_len();
    let mut i: usize = 0;
    while i < n
        invariant
            n == text@.len(),
            i <= n,
            forall|j: int| 0 <= j < i ==> text@[j] != '\n',
        decreases n - i,
    {
        if text.as_str().get_char(i) == '\n' {
            assert(text@.contains('\n'));
            return None;
        }
        i = i + 1;
    }
    let mut line = text;
    line.append("\n");
    proof {
        reveal_strlit("\n");
        assert("\n"@ =~= seq!['\n']);
    }
    Some(line)
}

} // verus!
