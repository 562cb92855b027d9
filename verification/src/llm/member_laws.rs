//! Which member of a provider's event each reported value is read from:
//! token counts, text, errors, tool calls, search queries and search results
//! keep the meaning of the member that carried them.
use vstd::prelude::*;

use crate::json::JsonView;
use super::{ParseResultView, ToolInputView, WebSearchResultView, str_items};
use crate::table::{lemma_tinsert_lookup, tlookup};
use super::openai::{ToolMetaView, chat_choice_ok, decode_output_item, error_member_result, openai_step, tool_event_result, tool_input_of, typed_item_result, url_citation};
use crate::json::opt_string_member;
use crate::text::signed_decimal;
use super::mistral::{MistralParserView, decode_choice, mistral_step};
use super::mistral_conversations::{ToolBufferView, chunk_ref, conversation_step};
use super::anthropic::{AnthropicParserView, anthropic_step, block_delta_step, block_start_step, search_item_ok, search_item_view};
use super::gemini::{call_part, chunk_item, grounding_results, text_part, usage_part};
use super::groq::{groq_choice_ok, groq_value_result};

verus! {

/// A streamed choice that carries at most text: an object whose `delta` is
/// an object with a string `content` or none.
pub open spec fn content_choice(c: JsonView) -> bool {
    &&& c.is_object()
    &&& match c.field("delta"@) {
        Some(d) => d.is_object() && match d.field("content"@) {
            None => true,
            Some(JsonView::Str(_)) => true,
            _ => false,
        },
        None => false,
    }
}


/// OpenAI: a `response.created` event whose response has a string `id` and a
/// `usage` object with `input_tokens`, `output_tokens` and `total_tokens`
/// starts the message with the input tokens read from `input_tokens` and the
/// output tokens from `output_tokens`.
pub proof fn law_openai_created_usage_counts(
    st: Seq<(Seq<char>, ToolMetaView)>,
    v: JsonView,
    response: JsonView,
    usage: JsonView,
    id: Seq<char>,
    input: u32,
    output: u32,
    total: u32,
)
    requires
        v.is_object(),
        v.str_field("type"@) == Some("response.created"@),
        v.field("response"@) == Some(response),
        response.is_object(),
        response.str_field("id"@) == Some(id),
        response.field("usage"@) == Some(usage),
        usage.is_object(),
        usage.u64_field("input_tokens"@) == Some(input as u64),
        usage.u64_field("output_tokens"@) == Some(output as u64),
        usage.u64_field("total_tokens"@) == Some(total as u64),
    ensures
        openai_step(st, v) == (
            st,
            ParseResultView::MessageStart {
                request_id: id,
                input_tokens: Some(input),
                output_tokens: Some(output),
                cached_input_tokens: None,
                cache_creation_tokens: None,
            },
        ),
{
    reveal_strlit("response.created");
    reveal_strlit("response.output_item.added");
    reveal_strlit("response.function_call_arguments.delta");
    reveal_strlit("response.function_call_arguments.done");
    reveal_strlit("response.output_text.delta");
    reveal_strlit("response.output_text.annotation.added");
    reveal_strlit("response.completed");
    assert("response.created"@.len() != "response.output_item.added"@.len());
    assert("response.created"@.len() != "response.function_call_arguments.delta"@.len());
    assert("response.created"@.len() != "response.function_call_arguments.done"@.len());
    assert("response.created"@.len() != "response.output_text.delta"@.len());
    assert("response.created"@.len() != "response.output_text.annotation.added"@.len());
    assert("response.created"@.len() != "response.completed"@.len());
}

/// OpenAI: a `response.completed` event that carries no tool item, whose
/// response has a string `id` and a `usage` object with `input_tokens`,
/// `output_tokens` and `total_tokens`, reports token usage with the input
/// tokens read from `input_tokens`, the output tokens from `output_tokens`
/// and the total from `total_tokens`.
pub proof fn law_openai_completed_usage_counts(
    st: Seq<(Seq<char>, ToolMetaView)>,
    v: JsonView,
    response: JsonView,
    usage: JsonView,
    id: Seq<char>,
    input: u32,
    output: u32,
    total: u32,
)
    requires
        v.is_object(),
        v.str_field("type"@) == Some("response.completed"@),
        tool_event_result(v) is None,
        v.field("response"@) == Some(response),
        response.is_object(),
        response.str_field("id"@) == Some(id),
        response.field("usage"@) == Some(usage),
        usage.is_object(),
        usage.u64_field("input_tokens"@) == Some(input as u64),
        usage.u64_field("output_tokens"@) == Some(output as u64),
        usage.u64_field("total_tokens"@) == Some(total as u64),
    ensures
        openai_step(st, v) == (
            st,
            ParseResultView::TokenUsage {
                request_id: Some(id),
                input_tokens: Some(input),
                output_tokens: Some(output),
                total_tokens: Some(total),
                cached_input_tokens: None,
                cache_creation_tokens: None,
            },
        ),
{
    reveal_strlit("response.output_item.added");
    reveal_strlit("response.function_call_arguments.delta");
    reveal_strlit("response.function_call_arguments.done");
    reveal_strlit("response.output_text.delta");
    reveal_strlit("response.output_text.annotation.added");
    reveal_strlit("response.completed");
    assert("response.completed"@.len() != "response.output_item.added"@.len());
    assert("response.completed"@.len() != "response.function_call_arguments.delta"@.len());
    assert("response.completed"@.len() != "response.function_call_arguments.done"@.len());
    assert("response.completed"@.len() != "response.output_text.delta"@.len());
    assert("response.completed"@.len() != "response.output_text.annotation.added"@.len());
}

/// Mistral: a chunk with a string `id`, no choices and a `usage` object
/// reports token usage with the input tokens read from `prompt_tokens`, the
/// output tokens from `completion_tokens` and the total from `total_tokens`.
pub proof fn law_mistral_chunk_usage_counts(
    st: MistralParserView,
    v: JsonView,
    usage: JsonView,
    id: Seq<char>,
    prompt: u32,
    completion: u32,
    total: u32,
)
    requires
        v.is_object(),
        v.str_field("id"@) == Some(id),
        v.array_field("choices"@) == Some(Seq::<JsonView>::empty()),
        v.field("usage"@) == Some(usage),
        usage.is_object(),
        usage.u64_field("prompt_tokens"@) == Some(prompt as u64),
        usage.u64_field("completion_tokens"@) == Some(completion as u64),
        usage.u64_field("total_tokens"@) == Some(total as u64),
    ensures
        mistral_step(st, v) == (
            st,
            ParseResultView::TokenUsage {
                request_id: Some(id),
                input_tokens: Some(prompt),
                output_tokens: Some(completion),
                total_tokens: Some(total),
                cached_input_tokens: None,
                cache_creation_tokens: None,
            },
        ),
{
}

/// Mistral conversations: a `conversation.response.done` event with a
/// `usage` object reports token usage with the input tokens read from
/// `prompt_tokens`, the output tokens from `completion_tokens` and the total
/// from `total_tokens`.
pub proof fn law_conversation_usage_counts(
    st: Seq<(Seq<char>, ToolBufferView)>,
    v: JsonView,
    usage: JsonView,
    prompt: u32,
    completion: u32,
    total: u32,
)
    requires
        v.str_field("event"@) is None,
        v.str_field("type"@) == Some("conversation.response.done"@),
        v.field("usage"@) == Some(usage),
        usage.u64_field("prompt_tokens"@) == Some(prompt as u64),
        usage.u64_field("completion_tokens"@) == Some(completion as u64),
        usage.u64_field("total_tokens"@) == Some(total as u64),
    ensures
        conversation_step(st, v) == (
            st,
            ParseResultView::TokenUsage {
                request_id: None,
                input_tokens: Some(prompt),
                output_tokens: Some(completion),
                total_tokens: Some(total),
                cached_input_tokens: None,
                cache_creation_tokens: None,
            },
        ),
{
    reveal_strlit("conversation.response.done");
    reveal_strlit("message.output.delta");
    reveal_strlit("tool.execution.started");
    reveal_strlit("tool.execution.delta");
    reveal_strlit("tool.execution.done");
    reveal_strlit("function.call.delta");
    assert("conversation.response.done"@.len() != "message.output.delta"@.len());
    assert("conversation.response.done"@.len() != "tool.execution.started"@.len());
    assert("conversation.response.done"@.len() != "tool.execution.delta"@.len());
    assert("conversation.response.done"@.len() != "tool.execution.done"@.len());
    assert("conversation.response.done"@.len() != "function.call.delta"@.len());
}

/// Anthropic: a `message_start` event reports the message's id, its input
/// tokens read from `message.usage.input_tokens` and its output tokens from
/// `message.usage.output_tokens`.
pub proof fn law_anthropic_start_usage_counts(
    st: AnthropicParserView,
    v: JsonView,
    message: JsonView,
    usage: JsonView,
    input: u32,
    output: u32,
)
    requires
        v.str_field("type"@) == Some("message_start"@),
        v.field("message"@) == Some(message),
        message.field("usage"@) == Some(usage),
        usage.u64_field("input_tokens"@) == Some(input as u64),
        usage.u64_field("output_tokens"@) == Some(output as u64),
    ensures
        anthropic_step(st, v).0 == st,
        anthropic_step(st, v).1 matches ParseResultView::MessageStart {
            input_tokens,
            output_tokens,
            ..
        } && input_tokens == Some(input) && output_tokens == Some(output),
{
    reveal_strlit("message_start");
    reveal_strlit("content_block_delta");
    assert("message_start"@.len() != "content_block_delta"@.len());
}

/// Anthropic: a `message_delta` event with `usage.output_tokens` reports
/// those as the output tokens, and no input or total count.
pub proof fn law_anthropic_delta_usage_counts(
    st: AnthropicParserView,
    v: JsonView,
    usage: JsonView,
    output: u32,
)
    requires
        v.str_field("type"@) == Some("message_delta"@),
        v.field("usage"@) == Some(usage),
        usage.u64_field("output_tokens"@) == Some(output as u64),
    ensures
        anthropic_step(st, v) == (
            st,
            ParseResultView::TokenUsage {
                request_id: None,
                input_tokens: None,
                output_tokens: Some(output),
                total_tokens: None,
                cached_input_tokens: None,
                cache_creation_tokens: None,
            },
        ),
{
    reveal_strlit("message_delta");
    reveal_strlit("message_start");
    reveal_strlit("content_block_delta");
    assert("message_delta"@ != "message_start"@) by {
        assert("message_delta"@[8] != "message_start"@[8]);
    }
    assert("message_delta"@.len() != "content_block_delta"@.len());
}

/// Gemini: usage metadata reports the input tokens read from
/// `promptTokenCount`, the output tokens from `candidatesTokenCount` and the
/// total from `totalTokenCount`.
pub proof fn law_gemini_usage_counts(r: JsonView, usage: JsonView, prompt: u32, candidates: u32, total: u32)
    requires
        r.field("usageMetadata"@) == Some(usage),
        usage.u64_field("promptTokenCount"@) == Some(prompt as u64),
        usage.u64_field("candidatesTokenCount"@) == Some(candidates as u64),
        usage.u64_field("totalTokenCount"@) == Some(total as u64),
    ensures
        usage_part(r) == seq![
            ParseResultView::TokenUsage {
                request_id: None,
                input_tokens: Some(prompt),
                output_tokens: Some(candidates),
                total_tokens: Some(total),
                cached_input_tokens: None,
                cache_creation_tokens: None,
            },
        ],
{
}

/// OpenAI: a chat-completion chunk (no `type`) with a string `id`, no usage,
/// and choices whose deltas hold string or missing `content`, reports the
/// first choice's content as text of the request named by the chunk's id.
pub proof fn law_openai_chunk_text(
    st: Seq<(Seq<char>, ToolMetaView)>,
    v: JsonView,
    choices: Seq<JsonView>,
    id: Seq<char>,
    text: Seq<char>,
)
    requires
        v.is_object(),
        v.str_field("type"@) is None,
        v.str_field("id"@) == Some(id),
        v.array_field("choices"@) == Some(choices),
        v.field("usage"@) is None,
        choices.len() > 0,
        forall|k: int| 0 <= k < choices.len() ==> #[trigger] content_choice(choices[k]),
        choices[0].field("delta"@) matches Some(d) && d.field("content"@) == Some(JsonView::Str(text)),
    ensures
        openai_step(st, v) == (st, ParseResultView::TextDelta { text, request_id: Some(id) }),
{
    assert forall|k: int| 0 <= k < choices.len() implies #[trigger] chat_choice_ok(choices[k]) by {
        assert(content_choice(choices[k]));
    }
}

/// OpenAI: a `response.output_text.delta` event reports its `delta` as text
/// of the item named by its `item_id`.
pub proof fn law_openai_output_text(
    st: Seq<(Seq<char>, ToolMetaView)>,
    v: JsonView,
    item_id: Seq<char>,
    delta: Seq<char>,
)
    requires
        v.is_object(),
        v.str_field("type"@) == Some("response.output_text.delta"@),
        v.str_field("item_id"@) == Some(item_id),
        v.str_field("delta"@) == Some(delta),
    ensures
        openai_step(st, v) == (st, ParseResultView::TextDelta { text: delta, request_id: Some(item_id) }),
{
    reveal_strlit("response.output_text.delta");
    reveal_strlit("response.output_item.added");
    reveal_strlit("response.function_call_arguments.delta");
    reveal_strlit("response.function_call_arguments.done");
    assert("response.output_text.delta"@[16] != "response.output_item.added"@[16]);
    assert("response.output_text.delta"@.len() != "response.function_call_arguments.delta"@.len());
    assert("response.output_text.delta"@.len() != "response.function_call_arguments.done"@.len());
}

/// Mistral: a chunk with a string `id`, no usage, and choices whose deltas
/// hold string or missing `content` (no tool calls, no finish reason),
/// reports the first choice's content as text of the request named by the
/// chunk's id.
pub proof fn law_mistral_chunk_text(
    st: MistralParserView,
    v: JsonView,
    choices: Seq<JsonView>,
    id: Seq<char>,
    text: Seq<char>,
)
    requires
        v.is_object(),
        v.str_field("id"@) == Some(id),
        v.array_field("choices"@) == Some(choices),
        v.field("usage"@) is None,
        choices.len() > 0,
        forall|k: int|
            0 <= k < choices.len() ==> #[trigger] content_choice(choices[k]) && choices[k].field("finish_reason"@)
                is None && choices[k].field("delta"@)->0.field("tool_calls"@) is None,
        choices[0].field("delta"@) matches Some(d) && d.field("content"@) == Some(JsonView::Str(text)),
    ensures
        mistral_step(st, v) == (st, ParseResultView::TextDelta { text, request_id: Some(id) }),
{
    assert forall|k: int| 0 <= k < choices.len() implies (#[trigger] decode_choice(choices[k])) is Some by {
        assert(content_choice(choices[k]));
    }
}

/// Mistral conversations: a `message.output.delta` event whose `content` is
/// a non-empty string reports that string as text.
pub proof fn law_conversation_output_text(st: Seq<(Seq<char>, ToolBufferView)>, v: JsonView, text: Seq<char>)
    requires
        v.str_field("event"@) is None,
        v.str_field("type"@) == Some("message.output.delta"@),
        v.field("content"@) == Some(JsonView::Str(text)),
        text.len() > 0,
    ensures
        conversation_step(st, v) == (st, ParseResultView::TextDelta { text, request_id: None }),
{
}

/// OpenAI: an `error` event whose `error` object has a string `type` and a
/// string `message` reports an error of that type with that message.
pub proof fn law_openai_error_event(
    st: Seq<(Seq<char>, ToolMetaView)>,
    v: JsonView,
    e: JsonView,
    error_type: Seq<char>,
    message: Seq<char>,
)
    requires
        v.is_object(),
        v.str_field("type"@) == Some("error"@),
        v.field("error"@) == Some(e),
        e.is_object(),
        e.field("type"@) == Some(JsonView::Str(error_type)),
        e.field("message"@) == Some(JsonView::Str(message)),
    ensures
        openai_step(st, v) == (st, ParseResultView::Error { error_type, message }),
{
    reveal_strlit("error");
    reveal_strlit("response.output_item.added");
    reveal_strlit("response.function_call_arguments.delta");
    reveal_strlit("response.function_call_arguments.done");
    reveal_strlit("response.output_text.delta");
    reveal_strlit("response.output_text.annotation.added");
    reveal_strlit("response.completed");
    reveal_strlit("response.created");
    assert("error"@.len() != "response.output_item.added"@.len());
    assert("error"@.len() != "response.function_call_arguments.delta"@.len());
    assert("error"@.len() != "response.function_call_arguments.done"@.len());
    assert("error"@.len() != "response.output_text.delta"@.len());
    assert("error"@.len() != "response.output_text.annotation.added"@.len());
    assert("error"@.len() != "response.completed"@.len());
    assert("error"@.len() != "response.created"@.len());
}

/// Anthropic: an `error` event whose `error` has a string `type` and a
/// string `message` reports an error of that type with that message.
pub proof fn law_anthropic_error_event(
    st: AnthropicParserView,
    v: JsonView,
    e: JsonView,
    error_type: Seq<char>,
    message: Seq<char>,
)
    requires
        v.is_object(),
        v.str_field("type"@) == Some("error"@),
        v.field("error"@) == Some(e),
        e.str_field("type"@) == Some(error_type),
        e.str_field("message"@) == Some(message),
    ensures
        anthropic_step(st, v) == (st, ParseResultView::Error { error_type, message }),
{
    reveal_strlit("error");
    reveal_strlit("content_block_delta");
    reveal_strlit("message_start");
    reveal_strlit("message_delta");
    reveal_strlit("content_block_start");
    reveal_strlit("content_block_stop");
    assert("error"@.len() != "content_block_delta"@.len());
    assert("error"@.len() != "message_start"@.len());
    assert("error"@.len() != "message_delta"@.len());
    assert("error"@.len() != "content_block_start"@.len());
    assert("error"@.len() != "content_block_stop"@.len());
}

/// OpenAI: a `web_search_call` item whose action names a single `query`
/// reports search progress for the item's `call_id` (else its `id`), with
/// that query and the query as the only one of the queries.
pub proof fn law_openai_search_call_progress(
    j: JsonView,
    action: JsonView,
    id: Seq<char>,
    call_id: Option<Seq<char>>,
    query: Seq<char>,
    raw: JsonView,
)
    requires
        j.is_object(),
        j.str_field("type"@) == Some("web_search_call"@),
        j.str_field("id"@) == Some(id),
        opt_string_member(j, "call_id"@) == Some(call_id),
        j.field("action"@) == Some(action),
        action.is_object(),
        action.field("query"@) == Some(JsonView::Str(query)),
        action.field("queries"@) is None,
    ensures
        decode_output_item(j) is Some,
        typed_item_result(decode_output_item(j)->0, raw) == Some(
            ParseResultView::WebSearchAction {
                tool_name: "web_search_call"@,
                tool_id: if call_id is Some {
                    call_id
                } else {
                    Some(id)
                },
                query: Some(query),
                queries: Some(seq![query]),
            },
        ),
{
    reveal_strlit("web_search_call");
    reveal_strlit("function_call");
    assert("web_search_call"@.len() != "function_call"@.len());
}

/// OpenAI: a completed `function_call` item (no status) with object
/// `arguments` reports a call of the item's `name`, for its `call_id` (else
/// its `id`), with those arguments as input.
pub proof fn law_openai_function_call_item(
    j: JsonView,
    id: Seq<char>,
    name: Seq<char>,
    call_id: Option<Seq<char>>,
    arguments: JsonView,
    raw: JsonView,
)
    requires
        j.is_object(),
        j.str_field("type"@) == Some("function_call"@),
        j.str_field("id"@) == Some(id),
        j.str_field("name"@) == Some(name),
        opt_string_member(j, "call_id"@) == Some(call_id),
        j.field("status"@) is None,
        j.field("arguments"@) == Some(arguments),
        arguments.is_object(),
    ensures
        decode_output_item(j) is Some,
        typed_item_result(decode_output_item(j)->0, raw) matches Some(ParseResultView::ToolCall(c))
            && c.tool_name == name && c.tool_id == (if call_id is Some {
            call_id
        } else {
            Some(id)
        }) && c.input == tool_input_of(arguments) && c.raw == Some(raw),
{
    reveal_strlit("function_call");
}

/// Anthropic: a `tool_use` block start reports a call of the block's `name`
/// with the block's `id` and `input`, at the block's index, and remembers
/// the name and id for that index.
pub proof fn law_anthropic_tool_use_start(
    st: AnthropicParserView,
    index: u32,
    b: JsonView,
    id: Seq<char>,
    name: Seq<char>,
    input: JsonView,
)
    requires
        b.is_object(),
        b.str_field("type"@) == Some("tool_use"@),
        b.str_field("id"@) == Some(id),
        b.str_field("name"@) == Some(name),
        b.field("input"@) == Some(input),
    ensures
        tlookup(block_start_step(st, index, b).0.tool_calls, index) == Some((name, Some(id))),
        block_start_step(st, index, b).1 matches ParseResultView::ToolCall(c) && c.tool_name == name
            && c.tool_id == Some(id) && c.input == Some(ToolInputView::Json(input)) && c.index == Some(
            index,
        ),
{
    lemma_tinsert_lookup(st.tool_calls, index, (name, Some(id)), index);
}

/// Anthropic: a `text_delta` reports its `text` as text.
pub proof fn law_anthropic_text_delta(st: AnthropicParserView, index: u32, d: JsonView, text: Seq<char>)
    requires
        d.is_object(),
        d.str_field("type"@) == Some("text_delta"@),
        d.str_field("text"@) == Some(text),
    ensures
        block_delta_step(st, index, d) == (st, ParseResultView::TextDelta { text, request_id: None }),
{
}

/// Gemini: a part's non-empty `text` is reported as text.
pub proof fn law_gemini_text_part(part: JsonView, text: Seq<char>)
    requires
        part.str_field("text"@) == Some(text),
        text.len() > 0,
    ensures
        text_part(part) == seq![ParseResultView::TextDelta { text, request_id: None }],
{
}

/// Gemini: a part's `functionCall` with a non-empty `name` reports a call of
/// that name, with the call's `id` and its `args` as input.
pub proof fn law_gemini_call_part(part: JsonView, fc: JsonView, name: Seq<char>, args: JsonView)
    requires
        part.field("functionCall"@) == Some(fc),
        fc.str_field("name"@) == Some(name),
        name.len() > 0,
        fc.field("args"@) == Some(args),
    ensures
        call_part(part).len() == 1,
        call_part(part)[0] matches ParseResultView::ToolCall(c) && c.tool_name == name && c.tool_id
            == fc.str_field("id"@) && c.input == Some(ToolInputView::Json(args)),
{
}

/// Groq: a chunk with a string `id` and choices whose deltas hold string or
/// missing `content` reports the first choice's non-empty content as text;
/// the request id is the `x_groq` metadata's `id` when the chunk has one,
/// else the chunk's `id`.
pub proof fn law_groq_text(
    v: JsonView,
    choices: Seq<JsonView>,
    id: Seq<char>,
    groq_id: Seq<char>,
    text: Seq<char>,
)
    requires
        v.is_object(),
        v.str_field("id"@) == Some(id),
        v.array_field("choices"@) == Some(choices),
        choices.len() > 0,
        forall|k: int| 0 <= k < choices.len() ==> #[trigger] content_choice(choices[k]),
        choices[0].field("delta"@) matches Some(d) && d.field("content"@) == Some(JsonView::Str(text)),
        text.len() > 0,
    ensures
        v.field("x_groq"@) is None ==> groq_value_result(v) == (ParseResultView::TextDelta {
            text,
            request_id: Some(id),
        }),
        (v.field("x_groq"@) matches Some(x) && x.is_object() && x.field("id"@) == Some(JsonView::Str(groq_id)))
            ==> groq_value_result(v) == (ParseResultView::TextDelta { text, request_id: Some(groq_id) }),
{
    assert forall|k: int| 0 <= k < choices.len() implies #[trigger] groq_choice_ok(choices[k]) by {
        assert(content_choice(choices[k]));
    }
}

/// OpenAI: an `error` member reports an error whose type is the member's
/// string `type` (or, where it has no `type`, its string `code`) and whose
/// message is its `message`.
pub proof fn law_openai_error_member(v: JsonView, e: JsonView, error_type: Seq<char>, message: Seq<char>)
    requires
        v.field("error"@) == Some(e),
        e.field("type"@) == Some(JsonView::Str(error_type)) || (e.field("type"@) is None && e.field("code"@)
            == Some(JsonView::Str(error_type))),
        e.str_field("message"@) == Some(message),
    ensures
        error_member_result(v) == Some(ParseResultView::Error { error_type, message }),
{
}

/// Mistral conversations: a `conversation.response.error` event reports an
/// error whose type is the decimal text of its integer `code` and whose
/// message is its `message`.
pub proof fn law_conversation_error(
    st: Seq<(Seq<char>, ToolBufferView)>,
    v: JsonView,
    code: i64,
    message: Seq<char>,
)
    requires
        v.str_field("event"@) is None,
        v.str_field("type"@) == Some("conversation.response.error"@),
        v.field("code"@) matches Some(c) && c.as_i64() == Some(code),
        v.str_field("message"@) == Some(message),
    ensures
        conversation_step(st, v) == (
            st,
            ParseResultView::Error { error_type: signed_decimal(code as int), message },
        ),
{
    reveal_strlit("conversation.response.error");
    reveal_strlit("conversation.response.done");
    reveal_strlit("message.output.delta");
    reveal_strlit("tool.execution.started");
    reveal_strlit("tool.execution.delta");
    reveal_strlit("tool.execution.done");
    reveal_strlit("function.call.delta");
    assert("conversation.response.error"@.len() != "conversation.response.done"@.len());
    assert("conversation.response.error"@.len() != "message.output.delta"@.len());
    assert("conversation.response.error"@.len() != "tool.execution.started"@.len());
    assert("conversation.response.error"@.len() != "tool.execution.delta"@.len());
    assert("conversation.response.error"@.len() != "tool.execution.done"@.len());
    assert("conversation.response.error"@.len() != "function.call.delta"@.len());
}

/// Anthropic: a `web_search_tool_result` block reports its items as search
/// results of the tool call named by its `tool_use_id`, one per item and in
/// order, each with the item's `title` and `url`.
pub proof fn law_anthropic_search_results(
    st: AnthropicParserView,
    index: u32,
    b: JsonView,
    tool_use_id: Seq<char>,
    items: Seq<JsonView>,
)
    requires
        b.is_object(),
        b.str_field("type"@) == Some("web_search_tool_result"@),
        b.str_field("tool_use_id"@) == Some(tool_use_id),
        b.array_field("content"@) == Some(items),
        forall|k: int| 0 <= k < items.len() ==> #[trigger] search_item_ok(items[k]),
    ensures
        block_start_step(st, index, b).0 == st,
        block_start_step(st, index, b).1 matches ParseResultView::WebSearchResult { tool_id, results, .. }
            && tool_id == Some(tool_use_id) && results.len() == items.len() && forall|k: int|
            0 <= k < items.len() ==> Some((#[trigger] results[k]).title) == items[k].str_field("title"@) && Some(
                results[k].url,
            ) == items[k].str_field("url"@),
{
    reveal_strlit("web_search_tool_result");
    reveal_strlit("tool_use");
    reveal_strlit("server_tool_use");
    assert("web_search_tool_result"@.len() != "tool_use"@.len());
    assert("web_search_tool_result"@.len() != "server_tool_use"@.len());
    let results = Seq::new(items.len(), |k: int| search_item_view(items[k]));
    assert forall|k: int| 0 <= k < items.len() implies Some((#[trigger] results[k]).title) == items[k].str_field(
        "title"@,
    ) && Some(results[k].url) == items[k].str_field("url"@) by {
        assert(search_item_ok(items[k]));
    }
}

proof fn lemma_str_items(items: Seq<JsonView>)
    requires
        forall|k: int| 0 <= k < items.len() ==> (#[trigger] items[k]).as_str() is Some,
    ensures
        str_items(items).len() == items.len(),
        forall|k: int| 0 <= k < items.len() ==> Some(#[trigger] str_items(items)[k]) == items[k].as_str(),
    decreases items.len(),
{
    if items.len() > 0 {
        let init = items.subrange(0, items.len() - 1);
        assert forall|k: int| 0 <= k < init.len() implies (#[trigger] init[k]).as_str() is Some by {
            assert(init[k] == items[k]);
        }
        lemma_str_items(init);
        assert(items[items.len() - 1].as_str() is Some);
        assert forall|k: int| 0 <= k < items.len() implies Some(#[trigger] str_items(items)[k])
            == items[k].as_str() by {
            if k < items.len() - 1 {
                assert(init[k] == items[k]);
            }
        }
    }
}

/// Gemini: the grounding metadata's search queries are reported as search
/// progress, with the first query as the query and all of them, in order,
/// as the queries.
pub proof fn law_gemini_grounding_queries(c: JsonView, m: JsonView, queries: Seq<JsonView>)
    requires
        c.field("groundingMetadata"@) == Some(m),
        m.field("webSearchQueries"@) == Some(JsonView::Array(queries)),
        queries.len() > 0,
        forall|k: int| 0 <= k < queries.len() ==> (#[trigger] queries[k]).as_str() is Some,
        m.field("groundingChunks"@) is None,
        m.field("grounding_chunks"@) is None,
    ensures
        grounding_results(c) == seq![
            ParseResultView::WebSearchAction {
                tool_name: "web_search_call"@,
                tool_id: Some("gemini_web_search"@),
                query: queries[0].as_str(),
                queries: Some(str_items(queries)),
            },
        ],
        str_items(queries).len() == queries.len(),
        forall|k: int| 0 <= k < queries.len() ==> Some(#[trigger] str_items(queries)[k]) == queries[k].as_str(),
{
    lemma_str_items(queries);
}

/// OpenAI: a `url_citation` annotation is a search result whose title is the
/// annotation's `title` and whose url is its `url`.
pub proof fn law_openai_citation_title_and_url(a: JsonView, title: Seq<char>, url: Seq<char>)
    requires
        a.str_field("type"@) == Some("url_citation"@),
        a.str_field("title"@) == Some(title),
        a.str_field("url"@) == Some(url),
    ensures
        url_citation(a) == Some(
            WebSearchResultView { title, url, source: None, page_age: None, snippet: None },
        ),
{
}

/// Anthropic: a web-search result item keeps its `title` as the result's
/// title and its `url` as the result's url.
pub proof fn law_anthropic_search_item_title_and_url(x: JsonView, title: Seq<char>, url: Seq<char>)
    requires
        search_item_ok(x),
        x.str_field("title"@) == Some(title),
        x.str_field("url"@) == Some(url),
    ensures
        search_item_view(x).title == title,
        search_item_view(x).url == url,
{
}

/// Gemini: a grounding chunk's `web` member (or the chunk itself) gives the
/// result's title from its `title` and the result's url from its `uri`.
pub proof fn law_gemini_chunk_title_and_url(ch: JsonView, web: JsonView, title: Seq<char>, url: Seq<char>)
    requires
        ch.field("web"@) == Some(web),
        web.str_field("title"@) == Some(title),
        web.str_field("uri"@) == Some(url),
        title.len() > 0,
    ensures
        chunk_item(ch) == Some(
            WebSearchResultView { title, url, source: None, page_age: None, snippet: None },
        ),
{
}

/// Mistral conversations: a `tool_reference` chunk gives the result's title
/// from its `title`, its url from `url`, its source from `tool` and its
/// snippet from `description`.
pub proof fn law_conversation_reference_title_and_url(item: JsonView, title: Seq<char>, url: Seq<char>)
    requires
        item.str_field("type"@) == Some("tool_reference"@),
        item.str_field("title"@) == Some(title),
        item.str_field("url"@) == Some(url),
        title.len() > 0,
    ensures
        chunk_ref(item) == Some(
            WebSearchResultView {
                title,
                url,
                source: item.str_field("tool"@),
                page_age: None,
                snippet: item.str_field("description"@),
            },
        ),
{
}

} // verus!
