//! How a dispatched record is rendered for the host: which targets are
//! forwarded, the target label, and the message body built from an event's
//! fields.
use vstd::prelude::*;
use vstd::string::*;

use crate::text::{is_prefix, join, join_strings, starts_with, str_eq, string_of, string_views};

verus! {

/// Longest target label, in characters, before it is shortened.
pub const MAX_TARGET_RUNE_LEN: usize = 72;

/// Targets whose records the host dispatcher forwards.
pub open spec fn accepts_target(target: Seq<char>) -> bool {
    ||| is_prefix("arena::"@, target)
    ||| is_prefix("arena_"@, target)
    ||| target == "ffi_logging_test"@
    ||| is_prefix("ffi_logging_test::"@, target)
}

/// The label of a target: the target itself up to 72 characters, else its
/// first 72 characters followed by an ellipsis.
pub open spec fn target_label(target: Seq<char>) -> Seq<char> {
    if target.len() <= MAX_TARGET_RUNE_LEN {
        target
    } else {
        target.subrange(0, MAX_TARGET_RUNE_LEN as int) + "\u{2026}"@
    }
}

/// The payload handed to the host: the bracketed label, then the body
/// after one space where there is a body.
pub open spec fn host_payload(target: Seq<char>, body: Seq<char>) -> Seq<char> {
    if body.len() == 0 {
        "["@ + target_label(target) + "]"@
    } else {
        "["@ + target_label(target) + "] "@ + body
    }
}

/// The body of a record: the message, then ` | ` and the fields joined with
/// `, ` where there are both.
pub open spec fn payload_body(message: Option<Seq<char>>, fields: Seq<Seq<char>>) -> Seq<char> {
    let m = match message {
        Some(m) => m,
        None => Seq::<char>::empty(),
    };
    let tail = join(fields, ", "@);
    if m.len() == 0 {
        tail
    } else if tail.len() == 0 {
        m
    } else {
        m + " | "@ + tail
    }
}

/// Whether the host dispatcher forwards records of `target`.
pub fn host_dispatcher_accepts_metadata_target(target: &str) -> (r: bool)
    ensures
        r == accepts_target(target@),
{
    starts_with(target, "arena::") || starts_with(target, "arena_") || str_eq(
        target,
        "ffi_logging_test",
    ) || starts_with(target, "ffi_logging_test::")
}

/// The label of `recording_target`.
pub fn shorten_tracing_metadata_target_label(recording_target: &str) -> (r: String)
    ensures
        r@ == target_label(recording_target@),
{
    let n = recording_target.unicode_len();
    if n <= MAX_TARGET_RUNE_LEN {
        return string_of(recording_target);
    }
    let mut out = string_of(recording_target.substring_char(0, MAX_TARGET_RUNE_LEN));
    out.append("\u{2026}");
    out
}

/// The payload handed to the host for a record of `recording_target`.
pub fn host_dispatcher_payload_for_host(recording_target: &str, message_body: String) -> (r:
    String)
    ensures
        r@ == host_payload(recording_target@, message_body@),
{
    let tag = shorten_tracing_metadata_target_label(recording_target);
    let mut out = string_of("[");
    out.append(tag.as_str());
    if message_body.as_str().unicode_len() == 0 {
        out.append("]");
    } else {
        out.append("] ");
        out.append(message_body.as_str());
    }
    out
}

/// Collects an event's message fragments and its other fields.
pub struct StructuredPayloadCollector {
    message: Option<String>,
    fields: Vec<String>,
}

impl StructuredPayloadCollector {
    /// The message collected so far, if any fragment was.
    pub closed spec fn message_view(&self) -> Option<Seq<char>> {
        match self.message {
            Some(m) => Some(m@),
            None => None,
        }
    }

    /// The `name=value` fields collected so far, in order.
    pub closed spec fn fields_view(&self) -> Seq<Seq<char>> {
        string_views(self.fields@)
    }

    /// The message collected so far, empty where none was.
    pub open spec fn message_text(&self) -> Seq<char> {
        match self.message_view() {
            Some(m) => m,
            None => Seq::<char>::empty(),
        }
    }

    /// A collector with no message and no field.
    pub fn new() -> (r: Self)
        ensures
            r.message_view() is None,
            r.fields_view() == Seq::<Seq<char>>::empty(),
    {
        let r = StructuredPayloadCollector { message: None, fields: Vec::new() };
        assert(r.fields_view() =~= Seq::<Seq<char>>::empty());
        r
    }

    /// Appends `fragment` to the message.
    pub fn append_message_fragment_raw(&mut self, fragment: &str)
        ensures
            final(self).message_view() == Some(old(self).message_text() + fragment@),
            final(self).fields_view() == old(self).fields_view(),
    {
        let mut m = match self.message.take() {
            Some(m) => m,
            None => String::new(),
        };
        m.append(fragment);
        self.message = Some(m);
    }

    /// Records the field `name` with its already formatted value.
    pub fn push_kv(&mut self, name: &str, formatted: &str)
        ensures
            final(self).message_view() == old(self).message_view(),
            final(self).fields_view() == old(self).fields_view().push(
                name@ + "="@ + formatted@,
            ),
    {
        let ghost before = self.fields_view();
        let mut entry = string_of(name);
        entry.append("=");
        entry.append(formatted);
        self.fields.push(entry);
        assert(self.fields_view() =~= before.push(name@ + "="@ + formatted@));
    }

    /// The record body built from what was collected.
    pub fn into_body(self) -> (r: String)
        ensures
            r@ == payload_body(self.message_view(), self.fields_view()),
    {
        let message = match self.message {
            Some(m) => m,
            None => String::new(),
        };
        let tail = join_strings(&self.fields, ", ");
        if message.as_str().unicode_len() == 0 {
            tail
        } else if tail.as_str().unicode_len() == 0 {
            message
        } else {
            let mut out = message;
            out.append(" | ");
            out.append(tail.as_str());
            out
        }
    }
}

} // verus!
