//! Decoder for Gemini's stream. One Gemini event can carry several results
//! (text, function calls, grounding, usage); the first is reported at once
//! and the rest are queued and reported on the following calls.
use vstd::prelude::*;

use crate::json::{
    Json, JsonView, array_of, items_view, json_parse_outcome, lemma_items_view,
    parse_json_result, str_of, string_of,
};
use crate::text::{same_text, trim, trim_seq};
use super::{
    ParseResultView, StreamParseResult, StreamWebSearchResult, ToolInput, ToolInputView,
    WebSearchResultView, build_tool_call, str_items, string_items, tool_call_of,
};

verus! {

/// Gemini stream parser: holds the results still to be reported.
pub struct GeminiStreamParser {
    pending: Vec<StreamParseResult>,
}

impl View for GeminiStreamParser {
    type V = Seq<ParseResultView>;

    closed spec fn view(&self) -> Seq<ParseResultView> {
        self.pending.deep_view()
    }
}

pub open spec fn or_empty(s: Option<Seq<char>>) -> Seq<char> {
    match s {
        Some(t) => t,
        None => Seq::empty(),
    }
}

/// The member `a` when present, else the member `b`.
pub open spec fn first_present(m: JsonView, a: Seq<char>, b: Seq<char>) -> Option<JsonView> {
    match m.field(a) {
        Some(x) => Some(x),
        None => m.field(b),
    }
}

/// A part's non-empty text.
pub open spec fn text_part(part: JsonView) -> Seq<ParseResultView> {
    match part.str_field("text"@) {
        Some(t) => if t.len() > 0 {
            seq![ParseResultView::TextDelta { text: t, request_id: None }]
        } else {
            Seq::empty()
        },
        None => Seq::empty(),
    }
}

/// A part's function call, when it is named; arguments default to `{}`.
pub open spec fn call_part(part: JsonView) -> Seq<ParseResultView> {
    match part.field("functionCall"@) {
        Some(fc) => {
            let name = or_empty(fc.str_field("name"@));
            let args = match fc.field("args"@) {
                Some(a) => a,
                None => JsonView::Object(Seq::empty()),
            };
            if name.len() > 0 {
                seq![
                    ParseResultView::ToolCall(
                        tool_call_of(
                            name,
                            fc.str_field("id"@),
                            Some(ToolInputView::Json(args)),
                            None,
                            Some(part),
                        ),
                    ),
                ]
            } else {
                Seq::empty()
            }
        },
        None => Seq::empty(),
    }
}

pub open spec fn parts_results(parts: Seq<JsonView>) -> Seq<ParseResultView>
    decreases parts.len(),
{
    if parts.len() == 0 {
        Seq::empty()
    } else {
        let p = parts[parts.len() - 1];
        parts_results(parts.subrange(0, parts.len() - 1)) + text_part(p) + call_part(p)
    }
}

/// A grounding chunk as a search result: the `web` member (or the chunk
/// itself), when it has a uri or a title.
pub open spec fn chunk_item(ch: JsonView) -> Option<WebSearchResultView> {
    let web = match ch.field("web"@) {
        Some(w) => w,
        None => ch,
    };
    let url = or_empty(web.str_field("uri"@));
    let title = or_empty(web.str_field("title"@));
    if url.len() == 0 && title.len() == 0 {
        None
    } else {
        Some(WebSearchResultView { title, url, source: None, page_age: None, snippet: None })
    }
}

pub open spec fn chunk_items(chunks: Seq<JsonView>) -> Seq<WebSearchResultView>
    decreases chunks.len(),
{
    if chunks.len() == 0 {
        Seq::empty()
    } else {
        chunk_items(chunks.subrange(0, chunks.len() - 1)) + match chunk_item(
            chunks[chunks.len() - 1],
        ) {
            Some(r) => seq![r],
            None => Seq::empty(),
        }
    }
}

/// Grounding metadata: the search queries, then the pages found.
pub open spec fn grounding_results(c: JsonView) -> Seq<ParseResultView> {
    match first_present(c, "groundingMetadata"@, "grounding_metadata"@) {
        None => Seq::empty(),
        Some(m) => {
            let queries = match array_of(first_present(m, "webSearchQueries"@, "web_search_queries"@)) {
                Some(arr) => {
                    let qs = str_items(arr);
                    if qs.len() > 0 {
                        seq![
                            ParseResultView::WebSearchAction {
                                tool_name: "web_search_call"@,
                                tool_id: Some("gemini_web_search"@),
                                query: Some(qs[0]),
                                queries: Some(qs),
                            },
                        ]
                    } else {
                        Seq::empty()
                    }
                },
                None => Seq::empty(),
            };
            let pages = match array_of(first_present(m, "groundingChunks"@, "grounding_chunks"@)) {
                Some(arr) => {
                    let rs = chunk_items(arr);
                    if rs.len() > 0 {
                        seq![
                            ParseResultView::WebSearchResult {
                                tool_name: "web_search_call"@,
                                tool_id: Some("gemini_web_search"@),
                                results: rs,
                            },
                        ]
                    } else {
                        Seq::empty()
                    }
                },
                None => Seq::empty(),
            };
            queries + pages
        },
    }
}

pub open spec fn candidate_results(c: JsonView) -> Seq<ParseResultView> {
    let parts = match c.field("content"@) {
        Some(ct) => match ct.array_field("parts"@) {
            Some(ps) => parts_results(ps),
            None => Seq::empty(),
        },
        None => Seq::empty(),
    };
    parts + grounding_results(c)
}

pub open spec fn candidates_results(cs: Seq<JsonView>) -> Seq<ParseResultView>
    decreases cs.len(),
{
    if cs.len() == 0 {
        Seq::empty()
    } else {
        candidates_results(cs.subrange(0, cs.len() - 1)) + candidate_results(cs[cs.len() - 1])
    }
}

pub open spec fn count_of(u: JsonView, key: Seq<char>) -> Option<u32> {
    match u.u64_field(key) {
        Some(n) => Some(n as u32),
        None => None,
    }
}

/// Usage metadata, when it holds any count.
pub open spec fn usage_part(r: JsonView) -> Seq<ParseResultView> {
    match r.field("usageMetadata"@) {
        Some(u) => {
            let i = count_of(u, "promptTokenCount"@);
            let o = count_of(u, "candidatesTokenCount"@);
            let t = count_of(u, "totalTokenCount"@);
            if i is Some || o is Some || t is Some {
                seq![
                    ParseResultView::TokenUsage {
                        request_id: None,
                        input_tokens: i,
                        output_tokens: o,
                        total_tokens: t,
                        cached_input_tokens: None,
                        cache_creation_tokens: None,
                    },
                ]
            } else {
                Seq::empty()
            }
        },
        None => Seq::empty(),
    }
}

pub open spec fn response_results(r: JsonView) -> Seq<ParseResultView> {
    candidates_results(
        match r.array_field("candidates"@) {
            Some(cs) => cs,
            None => Seq::empty(),
        },
    ) + usage_part(r)
}

pub open spec fn responses_results(rs: Seq<JsonView>) -> Seq<ParseResultView>
    decreases rs.len(),
{
    if rs.len() == 0 {
        Seq::empty()
    } else {
        responses_results(rs.subrange(0, rs.len() - 1)) + response_results(rs[rs.len() - 1])
    }
}

/// All results of one event: an array holds several responses.
pub open spec fn all_results(v: JsonView) -> Seq<ParseResultView> {
    match v {
        JsonView::Array(items) => responses_results(items),
        _ => responses_results(seq![v]),
    }
}

/// One raw event: queued results come first; then blank text and `[DONE]`
/// report nothing, text that does not parse is an error, an `error` member is
/// reported, and otherwise the first result is reported and the rest queued.
pub open spec fn gemini_event(pending: Seq<ParseResultView>, data: Seq<char>) -> (
    Seq<ParseResultView>,
    ParseResultView,
) {
    if pending.len() > 0 {
        (pending.subrange(1, pending.len() as int), pending[0])
    } else {
        let t = trim_seq(data);
        if t.len() == 0 || t == "[DONE]"@ {
            (pending, ParseResultView::NoEvent)
        } else {
            match json_parse_outcome(t) {
                Err(msg) => (
                    pending,
                    ParseResultView::Error { error_type: "provider_error"@, message: msg },
                ),
                Ok(v) => match v.field("error"@) {
                    Some(e) => (
                        pending,
                        ParseResultView::Error {
                            error_type: match str_of(first_present(e, "status"@, "type"@)) {
                                Some(s) => s,
                                None => "gemini_error"@,
                            },
                            message: match e.str_field("message"@) {
                                Some(m) => m,
                                None => "Gemini stream error"@,
                            },
                        },
                    ),
                    None => {
                        let rs = all_results(v);
                        if rs.len() == 0 {
                            (pending, ParseResultView::NoEvent)
                        } else {
                            (rs.subrange(1, rs.len() as int), rs[0])
                        }
                    },
                },
            }
        }
    }
}

fn text_or_empty(v: Option<&Json>) -> (r: String)
    ensures
        r@ == or_empty(str_of(v.deep_view())),
{
    match string_of(v) {
        Some(s) => s,
        None => String::new(),
    }
}

fn first_present_exec<'a>(m: &'a Json, a: &str, b: &str) -> (r: Option<&'a Json>)
    ensures
        r.deep_view() == first_present(m@, a@, b@),
{
    match m.get(a) {
        Some(x) => Some(x),
        None => m.get(b),
    }
}

fn push_all(out: &mut Vec<StreamParseResult>, more: Vec<StreamParseResult>)
    ensures
        final(out).deep_view() == old(out).deep_view() + more.deep_view(),
{
    let ghost mv = more.deep_view();
    let mut more = more;
    out.append(&mut more);
    assert(out.deep_view() =~= old(out).deep_view() + mv);
}

fn part_exec(part: &Json) -> (r: Vec<StreamParseResult>)
    ensures
        r.deep_view() == text_part(part@) + call_part(part@),
{
    let mut out: Vec<StreamParseResult> = Vec::new();
    if let Some(text) = string_of(part.get("text")) {
        if !text.as_str().is_empty() {
            out.push(StreamParseResult::TextDelta { text, request_id: None });
        }
    }
    let ghost mid = out.deep_view();
    assert(mid =~= text_part(part@));
    if let Some(fc) = part.get("functionCall") {
        let name = text_or_empty(fc.get("name"));
        let tool_id = string_of(fc.get("id"));
        let args = match fc.get("args") {
            Some(a) => a.copy(),
            None => {
                let empty: Vec<(String, Json)> = Vec::new();
                proof {
                    crate::json::lemma_entries_view(empty@);
                }
                assert(crate::json::entries_view(empty@) =~= Seq::empty());
                Json::Object(empty)
            },
        };
        if !name.as_str().is_empty() {
            let call = build_tool_call(name, tool_id, Some(ToolInput::Json(args)), None, Some(part.copy()));
            out.push(StreamParseResult::ToolCall(call));
        }
    }
    assert(out.deep_view() =~= text_part(part@) + call_part(part@));
    out
}

fn parts_exec(parts: &Vec<Json>) -> (r: Vec<StreamParseResult>)
    ensures
        r.deep_view() == parts_results(items_view(parts@)),
{
    let ghost iv = items_view(parts@);
    proof {
        lemma_items_view(parts@);
    }
    let mut out: Vec<StreamParseResult> = Vec::new();
    assert(out.deep_view() =~= parts_results(iv.subrange(0, 0)));
    let mut i: usize = 0;
    while i < parts.len()
        invariant
            i <= parts@.len(),
            iv == items_view(parts@),
            iv.len() == parts@.len(),
            forall|j: int| 0 <= j < parts@.len() ==> #[trigger] iv[j] == parts@[j]@,
            out.deep_view() == parts_results(iv.subrange(0, i as int)),
        decreases parts@.len() - i,
    {
        let ghost pre = iv.subrange(0, i + 1);
        assert(pre.subrange(0, i as int) =~= iv.subrange(0, i as int));
        assert(pre[i as int] == parts@[i as int]@);
        let more = part_exec(&parts[i]);
        push_all(&mut out, more);
        assert(out.deep_view() =~= parts_results(pre));
        i = i + 1;
    }
    assert(iv.subrange(0, parts@.len() as int) =~= iv);
    out
}

fn chunk_item_exec(ch: &Json) -> (r: Option<StreamWebSearchResult>)
    ensures
        r.deep_view() == chunk_item(ch@),
{
    let web = match ch.get("web") {
        Some(w) => w,
        None => ch,
    };
    let url = text_or_empty(web.get("uri"));
    let title = text_or_empty(web.get("title"));
    if url.as_str().is_empty() && title.as_str().is_empty() {
        None
    } else {
        Some(StreamWebSearchResult { title, url, source: None, page_age: None, snippet: None })
    }
}

fn chunk_items_exec(chunks: &Vec<Json>) -> (r: Vec<StreamWebSearchResult>)
    ensures
        r.deep_view() == chunk_items(items_view(chunks@)),
{
    let ghost iv = items_view(chunks@);
    proof {
        lemma_items_view(chunks@);
    }
    let mut out: Vec<StreamWebSearchResult> = Vec::new();
    assert(out.deep_view() =~= chunk_items(iv.subrange(0, 0)));
    let mut i: usize = 0;
    while i < chunks.len()
        invariant
            i <= chunks@.len(),
            iv == items_view(chunks@),
            iv.len() == chunks@.len(),
            forall|j: int| 0 <= j < chunks@.len() ==> #[trigger] iv[j] == chunks@[j]@,
            out.deep_view() == chunk_items(iv.subrange(0, i as int)),
        decreases chunks@.len() - i,
    {
        let ghost pre = iv.subrange(0, i + 1);
        assert(pre.subrange(0, i as int) =~= iv.subrange(0, i as int));
        assert(pre[i as int] == chunks@[i as int]@);
        let ghost before = out.deep_view();
        match chunk_item_exec(&chunks[i]) {
            Some(r) => {
                let ghost rv = r@;
                out.push(r);
                assert(out.deep_view() =~= before + seq![rv]);
            },
            None => {
                assert(before + Seq::<WebSearchResultView>::empty() =~= before);
            },
        }
        assert(out.deep_view() =~= chunk_items(pre));
        i = i + 1;
    }
    assert(iv.subrange(0, chunks@.len() as int) =~= iv);
    out
}

fn grounding_exec(c: &Json) -> (r: Vec<StreamParseResult>)
    ensures
        r.deep_view() == grounding_results(c@),
{
    let mut out: Vec<StreamParseResult> = Vec::new();
    let m = match first_present_exec(c, "groundingMetadata", "grounding_metadata") {
        Some(m) => m,
        None => {
            assert(out.deep_view() =~= grounding_results(c@));
            return out;
        },
    };
    if let Some(q) = first_present_exec(m, "webSearchQueries", "web_search_queries") {
        if let Some(arr) = q.as_array() {
            let queries = string_items(arr);
            if queries.len() > 0 {
                let first = queries[0].clone();
                out.push(
                    StreamParseResult::WebSearchAction {
                        tool_name: "web_search_call".to_owned(),
                        tool_id: Some("gemini_web_search".to_owned()),
                        query: Some(first),
                        queries: Some(queries),
                    },
                );
            }
        }
    }
    let ghost mid = out.deep_view();
    if let Some(ch) = first_present_exec(m, "groundingChunks", "grounding_chunks") {
        if let Some(arr) = ch.as_array() {
            let results = chunk_items_exec(arr);
            if results.len() > 0 {
                out.push(
                    StreamParseResult::WebSearchResult {
                        tool_name: "web_search_call".to_owned(),
                        tool_id: Some("gemini_web_search".to_owned()),
                        results,
                    },
                );
            }
        }
    }
    assert(out.deep_view() =~= grounding_results(c@));
    out
}

fn candidate_exec(c: &Json) -> (r: Vec<StreamParseResult>)
    ensures
        r.deep_view() == candidate_results(c@),
{
    let mut out: Vec<StreamParseResult> = Vec::new();
    if let Some(content) = c.get("content") {
        if let Some(parts) = content.get("parts") {
            if let Some(ps) = parts.as_array() {
                out = parts_exec(ps);
            }
        }
    }
    let more = grounding_exec(c);
    push_all(&mut out, more);
    assert(out.deep_view() =~= candidate_results(c@));
    out
}

fn candidates_exec(cs: &Vec<Json>) -> (r: Vec<StreamParseResult>)
    ensures
        r.deep_view() == candidates_results(items_view(cs@)),
{
    let ghost iv = items_view(cs@);
    proof {
        lemma_items_view(cs@);
    }
    let mut out: Vec<StreamParseResult> = Vec::new();
    assert(out.deep_view() =~= candidates_results(iv.subrange(0, 0)));
    let mut i: usize = 0;
    while i < cs.len()
        invariant
            i <= cs@.len(),
            iv == items_view(cs@),
            iv.len() == cs@.len(),
            forall|j: int| 0 <= j < cs@.len() ==> #[trigger] iv[j] == cs@[j]@,
            out.deep_view() == candidates_results(iv.subrange(0, i as int)),
        decreases cs@.len() - i,
    {
        let ghost pre = iv.subrange(0, i + 1);
        assert(pre.subrange(0, i as int) =~= iv.subrange(0, i as int));
        assert(pre[i as int] == cs@[i as int]@);
        let more = candidate_exec(&cs[i]);
        push_all(&mut out, more);
        assert(out.deep_view() =~= candidates_results(pre));
        i = i + 1;
    }
    assert(iv.subrange(0, cs@.len() as int) =~= iv);
    out
}

fn count_exec(u: &Json, key: &str) -> (r: Option<u32>)
    ensures
        r == count_of(u@, key@),
{
    match crate::json::u64_member(u, key) {
        Some(n) => Some(n as u32),
        None => None,
    }
}

fn response_exec(r: &Json) -> (out: Vec<StreamParseResult>)
    ensures
        out.deep_view() == response_results(r@),
{
    let mut out: Vec<StreamParseResult> = Vec::new();
    let mut found = false;
    if let Some(cands) = r.get("candidates") {
        if let Some(cs) = cands.as_array() {
            out = candidates_exec(cs);
            found = true;
        }
    }
    if !found {
        let empty: Vec<Json> = Vec::new();
        proof {
            lemma_items_view(empty@);
        }
        assert(items_view(empty@) =~= Seq::<JsonView>::empty());
        assert(out.deep_view() =~= candidates_results(Seq::<JsonView>::empty()));
    }
    if let Some(u) = r.get("usageMetadata") {
        let i = count_exec(u, "promptTokenCount");
        let o = count_exec(u, "candidatesTokenCount");
        let t = count_exec(u, "totalTokenCount");
        if i.is_some() || o.is_some() || t.is_some() {
            out.push(
                StreamParseResult::TokenUsage {
                    request_id: None,
                    input_tokens: i,
                    output_tokens: o,
                    total_tokens: t,
                    cached_input_tokens: None,
                    cache_creation_tokens: None,
                },
            );
        }
    }
    assert(out.deep_view() =~= response_results(r@));
    out
}

fn responses_exec(rs: &Vec<Json>) -> (r: Vec<StreamParseResult>)
    ensures
        r.deep_view() == responses_results(items_view(rs@)),
{
    let ghost iv = items_view(rs@);
    proof {
        lemma_items_view(rs@);
    }
    let mut out: Vec<StreamParseResult> = Vec::new();
    assert(out.deep_view() =~= responses_results(iv.subrange(0, 0)));
    let mut i: usize = 0;
    while i < rs.len()
        invariant
            i <= rs@.len(),
            iv == items_view(rs@),
            iv.len() == rs@.len(),
            forall|j: int| 0 <= j < rs@.len() ==> #[trigger] iv[j] == rs@[j]@,
            out.deep_view() == responses_results(iv.subrange(0, i as int)),
        decreases rs@.len() - i,
    {
        let ghost pre = iv.subrange(0, i + 1);
        assert(pre.subrange(0, i as int) =~= iv.subrange(0, i as int));
        assert(pre[i as int] == rs@[i as int]@);
        let more = response_exec(&rs[i]);
        push_all(&mut out, more);
        assert(out.deep_view() =~= responses_results(pre));
        i = i + 1;
    }
    assert(iv.subrange(0, rs@.len() as int) =~= iv);
    out
}

/// All results of one parsed event (see `all_results`).
pub fn gemini_results(v: &Json) -> (r: Vec<StreamParseResult>)
    ensures
        r.deep_view() == all_results(v@),
{
    match v {
        Json::Array(items) => responses_exec(items),
        _ => {
            let mut one: Vec<Json> = Vec::new();
            one.push(v.copy());
            proof {
                lemma_items_view(one@);
            }
            assert(items_view(one@) =~= seq![v@]);
            responses_exec(&one)
        },
    }
}

impl GeminiStreamParser {
    pub fn new() -> (r: Self)
        ensures
            r@.len() == 0,
    {
        let r = GeminiStreamParser { pending: Vec::new() };
        assert(r@ =~= Seq::<ParseResultView>::empty());
        r
    }

    /// Decodes one raw server-sent event (see `gemini_event`).
    pub fn parse_event(&mut self, data: &str) -> (r: StreamParseResult)
        ensures
            (final(self)@, r@) == gemini_event(old(self)@, data@),
    {
        if self.pending.len() > 0 {
            let next = self.pending.remove(0);
            assert(self@ =~= old(self)@.subrange(1, old(self)@.len() as int));
            return next;
        }
        let trimmed = trim(data);
        if trimmed.as_str().is_empty() || same_text(trimmed.as_str(), "[DONE]") {
            return StreamParseResult::NoEvent;
        }
        let value = match parse_json_result(trimmed.as_str()) {
            Ok(v) => v,
            Err(message) => {
                return StreamParseResult::Error { error_type: "provider_error".to_owned(), message };
            },
        };
        if let Some(error) = value.get("error") {
            let message = match string_of(error.get("message")) {
                Some(m) => m,
                None => "Gemini stream error".to_owned(),
            };
            let error_type = match string_of(first_present_exec(error, "status", "type")) {
                Some(s) => s,
                None => "gemini_error".to_owned(),
            };
            return StreamParseResult::Error { error_type, message };
        }
        let mut results = gemini_results(&value);
        if results.len() == 0 {
            return StreamParseResult::NoEvent;
        }
        let first = results.remove(0);
        let ghost rv = old(self)@;
        self.pending = results;
        proof {
            assert(rv.len() == 0);
        }
        first
    }
}

/// The held-back results a drain reports: in order, up to the first that
/// is no event.
pub open spec fn drained(p: Seq<ParseResultView>) -> Seq<ParseResultView>
    decreases p.len(),
{
    if p.len() == 0 || p[0] is NoEvent {
        Seq::empty()
    } else {
        seq![p[0]] + drained(p.subrange(1, p.len() as int))
    }
}

/// What the parser still holds after a drain.
pub open spec fn after_drain(p: Seq<ParseResultView>) -> Seq<ParseResultView>
    decreases p.len(),
{
    if p.len() == 0 {
        p
    } else if p[0] is NoEvent {
        p.subrange(1, p.len() as int)
    } else {
        after_drain(p.subrange(1, p.len() as int))
    }
}

impl GeminiStreamParser {
    /// Decodes one event, then asks with empty text for what the parser held
    /// back, until it reports no event: the event's first result, then the
    /// rest of its results in order.
    pub fn parse_with_pending(&mut self, data: &str) -> (r: Vec<StreamParseResult>)
        ensures
            ({
                let (p1, first) = gemini_event(old(self)@, data@);
                &&& r.deep_view() == seq![first] + drained(p1)
                &&& final(self)@ == after_drain(p1)
            }),
    {
        let first = self.parse_event(data);
        let ghost p1 = self@;
        let mut out: Vec<StreamParseResult> = Vec::new();
        out.push(first);
        proof {
            reveal_strlit("");
            assert(trim_seq(""@).len() == 0) by {
                assert(""@.len() == 0);
            }
        }
        loop
            invariant_except_break
                seq![first@] + drained(p1) == out.deep_view() + drained(self@),
                after_drain(self@) == after_drain(p1),
            invariant
                ""@.len() == 0,
                trim_seq(""@).len() == 0,
            ensures
                seq![first@] + drained(p1) == out.deep_view(),
                self@ == after_drain(p1),
            decreases self@.len(),
        {
            let ghost before = self@;
            let ghost outv = out.deep_view();
            let pending = self.parse_event("");
            if matches!(pending, StreamParseResult::NoEvent) {
                proof {
                    if before.len() > 0 {
                        assert(before[0] is NoEvent);
                    }
                    assert(outv + Seq::<ParseResultView>::empty() =~= outv);
                }
                break;
            }
            proof {
                assert(before.len() > 0);
                assert(drained(before) == seq![before[0]] + drained(self@));
                assert(out.deep_view() + drained(before) =~= out.deep_view().push(before[0]) + drained(self@));
            }
            out.push(pending);
        }
        out
    }
}

impl Default for GeminiStreamParser {
    fn default() -> (r: Self)
        ensures
            r@.len() == 0,
    {
        GeminiStreamParser::new()
    }
}

} // verus!
