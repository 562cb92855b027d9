//! Decoder for Groq's chat-completion stream (OpenAI-compatible chunks).
use vstd::prelude::*;

use crate::json::{Json, JsonView, decode_opt_string, opt_string_member, parse_json, parsed_json, lemma_items_view, items_view};
use crate::text::{trim, trim_seq};
use super::{ParseResultView, StreamParseResult};

verus! {

/// One choice decodes when it is an object whose `delta` is an object with an
/// optional string `content`.
pub open spec fn groq_choice_ok(c: JsonView) -> bool {
    &&& c.is_object()
    &&& match c.field("delta"@) {
        Some(d) => d.is_object() && opt_string_member(d, "content"@) is Some,
        None => false,
    }
}

/// The optional `x_groq` metadata decodes: missing, null, or an object with an
/// optional string `id`.
pub open spec fn groq_meta_ok(v: JsonView) -> bool {
    match v.field("x_groq"@) {
        None => true,
        Some(JsonView::Null) => true,
        Some(x) => x.is_object() && opt_string_member(x, "id"@) is Some,
    }
}

/// A chunk decodes: an object with a string `id`, an array `choices` whose
/// items all decode, and decodable metadata.
pub open spec fn groq_chunk_ok(v: JsonView) -> bool {
    &&& v.is_object()
    &&& v.str_field("id"@) is Some
    &&& match v.array_field("choices"@) {
        Some(cs) => forall|i: int| 0 <= i < cs.len() ==> #[trigger] groq_choice_ok(cs[i]),
        None => false,
    }
    &&& groq_meta_ok(v)
}

/// The request id: the metadata's id when present, else the chunk's id.
pub open spec fn groq_request_id(v: JsonView) -> Seq<char> {
    match v.field("x_groq"@) {
        Some(x) => match opt_string_member(x, "id"@) {
            Some(Some(id)) => id,
            _ => v.str_field("id"@)->0,
        },
        None => v.str_field("id"@)->0,
    }
}

/// The content of the first choice's delta.
pub open spec fn groq_first_content(v: JsonView) -> Option<Seq<char>> {
    let cs = v.array_field("choices"@)->0;
    if cs.len() > 0 {
        match cs[0].field("delta"@) {
            Some(d) => opt_string_member(d, "content"@)->0,
            None => None,
        }
    } else {
        None
    }
}

/// A decodable chunk whose first choice carries non-empty content is a text
/// delta; anything else reports nothing.
pub open spec fn groq_value_result(v: JsonView) -> ParseResultView {
    if groq_chunk_ok(v) {
        match groq_first_content(v) {
            Some(text) => if text.len() > 0 {
                ParseResultView::TextDelta { text, request_id: Some(groq_request_id(v)) }
            } else {
                ParseResultView::NoEvent
            },
            None => ParseResultView::NoEvent,
        }
    } else {
        ParseResultView::NoEvent
    }
}

/// The result for one raw event: `[DONE]` and undecodable text report nothing.
pub open spec fn groq_event_result(data: Seq<char>) -> ParseResultView {
    if trim_seq(data) == "[DONE]"@ {
        ParseResultView::NoEvent
    } else {
        match parsed_json(data) {
            Some(v) => groq_value_result(v),
            None => ParseResultView::NoEvent,
        }
    }
}

/// Groq stream parser; it keeps no state between events.
pub struct GroqStreamParser;

fn choices_ok(cs: &Vec<Json>) -> (r: bool)
    ensures
        r == forall|i: int| 0 <= i < cs@.len() ==> #[trigger] groq_choice_ok(items_view(cs@)[i]),
{
    proof {
        lemma_items_view(cs@);
    }
    let mut i: usize = 0;
    while i < cs.len()
        invariant
            i <= cs@.len(),
            items_view(cs@).len() == cs@.len(),
            forall|j: int| 0 <= j < cs@.len() ==> #[trigger] items_view(cs@)[j] == cs@[j]@,
            forall|j: int| 0 <= j < i ==> #[trigger] groq_choice_ok(items_view(cs@)[j]),
        decreases cs@.len() - i,
    {
        let c = &cs[i];
        let ok = c.is_object() && match c.get("delta") {
            Some(d) => d.is_object() && decode_opt_string(d, "content").is_some(),
            None => false,
        };
        if !ok {
            assert(!groq_choice_ok(items_view(cs@)[i as int]));
            return false;
        }
        i = i + 1;
    }
    true
}

impl GroqStreamParser {
    pub fn new() -> (r: Self) {
        GroqStreamParser
    }

    /// Decodes one parsed event.
    pub fn parse_value(&self, value: &Json) -> (r: StreamParseResult)
        ensures
            r@ == groq_value_result(value@),
    {
        if !value.is_object() {
            return StreamParseResult::NoEvent;
        }
        let id = match value.get("id") {
            Some(x) => match x.as_str() {
                Some(s) => s.clone(),
                None => return StreamParseResult::NoEvent,
            },
            None => return StreamParseResult::NoEvent,
        };
        let choices = match value.get("choices") {
            Some(x) => match x.as_array() {
                Some(a) => a,
                None => return StreamParseResult::NoEvent,
            },
            None => return StreamParseResult::NoEvent,
        };
        proof {
            lemma_items_view(choices@);
        }
        assert(value@.array_field("choices"@) == Some(items_view(choices@)));
        if !choices_ok(choices) {
            return StreamParseResult::NoEvent;
        }
        let meta_id: Option<String> = match value.get("x_groq") {
            None => None,
            Some(Json::Null) => None,
            Some(x) => {
                if !x.is_object() {
                    return StreamParseResult::NoEvent;
                }
                match decode_opt_string(x, "id") {
                    Some(m) => m,
                    None => return StreamParseResult::NoEvent,
                }
            },
        };
        proof {
            lemma_items_view(choices@);
        }
        assert(groq_meta_ok(value@));
        assert(groq_chunk_ok(value@));
        if choices.len() == 0 {
            return StreamParseResult::NoEvent;
        }
        assert(groq_request_id(value@) == match meta_id { Some(m) => m@, None => id@ });
        let content = match choices[0].get("delta") {
            Some(d) => match decode_opt_string(d, "content") {
                Some(c) => c,
                None => None,
            },
            None => None,
        };
        assert(items_view(choices@)[0] == choices@[0]@);
        assert(groq_choice_ok(items_view(choices@)[0]));
        assert(groq_first_content(value@) == content.deep_view());
        match content {
            Some(text) => {
                if text.as_str().is_empty() {
                    StreamParseResult::NoEvent
                } else {
                    let request_id = match meta_id {
                        Some(m) => m,
                        None => id,
                    };
                    StreamParseResult::TextDelta { text, request_id: Some(request_id) }
                }
            },
            None => StreamParseResult::NoEvent,
        }
    }

    /// Decodes one raw server-sent event.
    pub fn parse_event(&self, data: &str) -> (r: StreamParseResult)
        ensures
            r@ == groq_event_result(data@),
    {
        let trimmed = trim(data);
        if trimmed == "[DONE]".to_owned() {
            return StreamParseResult::NoEvent;
        }
        match parse_json(data) {
            Some(v) => self.parse_value(&v),
            None => StreamParseResult::NoEvent,
        }
    }
}

impl Default for GroqStreamParser {
    fn default() -> (r: Self) {
        GroqStreamParser::new()
    }
}

} // verus!
