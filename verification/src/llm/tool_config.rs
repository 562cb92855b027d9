//! What a request offers the model: how it may choose tools, and the
//! messages that carry a tool's outcome back to it.
use vstd::prelude::*;

use crate::json::{Json, JsonView, json_text, json_to_string};

verus! {

/// Mistral's `tool_choice`: none without tools; the single catalogue tool
/// when tools were selected and the catalogue has exactly one; else `auto`.
pub open spec fn mistral_tool_choice_of(
    selected: Seq<Seq<char>>,
    tool_names: Seq<Seq<char>>,
    has_tools: bool,
) -> Option<JsonView> {
    if !has_tools {
        None
    } else if selected.len() > 0 && tool_names.len() == 1 {
        Some(
            JsonView::Object(
                seq![
                    ("function"@, JsonView::Object(seq![("name"@, JsonView::Str(tool_names[0]))])),
                    ("type"@, JsonView::Str("function"@)),
                ],
            ),
        )
    } else {
        Some(JsonView::Str("auto"@))
    }
}

/// `tool_names` are the names of the tool catalogue.
pub fn build_mistral_tool_choice(
    selected_tools: &Vec<String>,
    tool_names: &Vec<String>,
    has_tools: bool,
) -> (r: Option<Json>)
    ensures
        r.deep_view() == mistral_tool_choice_of(
            selected_tools.deep_view(),
            tool_names.deep_view(),
            has_tools,
        ),
{
    if !has_tools {
        return None;
    }
    if selected_tools.len() > 0 && tool_names.len() == 1 {
        let mut f: Vec<(String, Json)> = Vec::new();
        f.push(("name".to_owned(), Json::Str(tool_names[0].clone())));
        let mut m: Vec<(String, Json)> = Vec::new();
        let ghost fv = f@;
        m.push(("function".to_owned(), Json::Object(f)));
        m.push(("type".to_owned(), Json::Str("function".to_owned())));
        proof {
            crate::json::lemma_entries_view(fv);
            crate::json::lemma_entries_view(m@);
            assert(crate::json::entries_view(fv) =~= seq![("name"@, JsonView::Str(tool_names@[0]@))]);
            assert(crate::json::entries_view(m@) =~= seq![
                ("function"@, JsonView::Object(seq![("name"@, JsonView::Str(tool_names@[0]@))])),
                ("type"@, JsonView::Str("function"@)),
            ]);
            assert(tool_names.deep_view()[0] == tool_names@[0]@);
        }
        Some(Json::Object(m))
    } else {
        Some(Json::Str("auto".to_owned()))
    }
}

/// Gemini's `tool_config`: none without catalogue tools (a function-calling
/// configuration is only valid with function declarations). Otherwise the
/// server-side tool invocations are included with web search, and function
/// calling is `ANY` restricted to the single catalogue tool when tools were
/// selected and the catalogue has exactly one, else `AUTO`.
pub open spec fn gemini_tool_config_of(
    web_search: bool,
    selected: Seq<Seq<char>>,
    tool_names: Seq<Seq<char>>,
) -> Option<JsonView> {
    if tool_names.len() == 0 {
        None
    } else {
        let calling = if selected.len() > 0 && tool_names.len() == 1 {
            JsonView::Object(
                seq![
                    ("allowed_function_names"@, JsonView::Array(seq![JsonView::Str(tool_names[0])])),
                    ("mode"@, JsonView::Str("ANY"@)),
                ],
            )
        } else {
            JsonView::Object(seq![("mode"@, JsonView::Str("AUTO"@))])
        };
        Some(
            JsonView::Object(
                if web_search {
                    seq![
                        ("function_calling_config"@, calling),
                        ("include_server_side_tool_invocations"@, JsonView::Bool(true)),
                    ]
                } else {
                    seq![("function_calling_config"@, calling)]
                },
            ),
        )
    }
}

pub fn build_gemini_tool_config(
    web_search: bool,
    selected_tools: &Vec<String>,
    tool_names: &Vec<String>,
) -> (r: Option<Json>)
    ensures
        r.deep_view() == gemini_tool_config_of(web_search, selected_tools.deep_view(), tool_names.deep_view()),
{
    if tool_names.len() == 0 {
        return None;
    }
    let ghost names = tool_names.deep_view();
    let calling = if selected_tools.len() > 0 && tool_names.len() == 1 {
        let mut list: Vec<Json> = Vec::new();
        list.push(Json::Str(tool_names[0].clone()));
        let mut c: Vec<(String, Json)> = Vec::new();
        let ghost lv = list@;
        c.push(("allowed_function_names".to_owned(), Json::Array(list)));
        c.push(("mode".to_owned(), Json::Str("ANY".to_owned())));
        proof {
            crate::json::lemma_items_view(lv);
            crate::json::lemma_entries_view(c@);
            assert(names[0] == tool_names@[0]@);
            assert(crate::json::items_view(lv) =~= seq![JsonView::Str(names[0])]);
            assert(crate::json::entries_view(c@) =~= seq![
                ("allowed_function_names"@, JsonView::Array(seq![JsonView::Str(names[0])])),
                ("mode"@, JsonView::Str("ANY"@)),
            ]);
        }
        Json::Object(c)
    } else {
        let mut c: Vec<(String, Json)> = Vec::new();
        c.push(("mode".to_owned(), Json::Str("AUTO".to_owned())));
        proof {
            crate::json::lemma_entries_view(c@);
            assert(crate::json::entries_view(c@) =~= seq![("mode"@, JsonView::Str("AUTO"@))]);
        }
        Json::Object(c)
    };
    let ghost cv = calling@;
    let mut m: Vec<(String, Json)> = Vec::new();
    m.push(("function_calling_config".to_owned(), calling));
    if web_search {
        m.push(("include_server_side_tool_invocations".to_owned(), Json::Bool(true)));
    }
    proof {
        crate::json::lemma_entries_view(m@);
        if web_search {
            assert(crate::json::entries_view(m@) =~= seq![
                ("function_calling_config"@, cv),
                ("include_server_side_tool_invocations"@, JsonView::Bool(true)),
            ]);
        } else {
            assert(crate::json::entries_view(m@) =~= seq![("function_calling_config"@, cv)]);
        }
    }
    Some(Json::Object(m))
}

/// An OpenAI input item carrying a function's output.
pub struct OpenaiFunctionCallOutput {
    /// Always `function_call_output`.
    pub item_type: String,
    pub call_id: String,
    /// The output's JSON text.
    pub output: String,
}

pub fn make_openai_function_output(call_id: String, output: &Json) -> (r: OpenaiFunctionCallOutput)
    ensures
        r.item_type@ == "function_call_output"@,
        r.call_id@ == call_id@,
        r.output@ == json_text(output@),
{
    let text = match json_to_string(output) {
        Some(t) => t,
        None => "{}".to_owned(),
    };
    OpenaiFunctionCallOutput { item_type: "function_call_output".to_owned(), call_id, output: text }
}

/// A function call made by the model.
pub struct GeminiFunctionCall {
    pub id: String,
    pub name: String,
    pub args: Json,
}

/// The answer to a function call.
pub struct GeminiFunctionResponse {
    pub id: String,
    pub name: String,
    pub response: Json,
}

/// A part of a Gemini message.
pub struct GeminiPart {
    pub function_call: Option<GeminiFunctionCall>,
    pub function_response: Option<GeminiFunctionResponse>,
    pub thought_signature: Option<Json>,
}

/// A Gemini message.
pub struct GeminiContent {
    pub role: String,
    pub parts: Vec<GeminiPart>,
}

/// The two turns that record a tool call for Gemini: the model's call
/// (with its thought signature, if any) and the user's answer, whose
/// response is `{"output": output}`.
pub fn build_gemini_tool_messages(
    call_id: String,
    tool_name: String,
    args: Json,
    output: &Json,
    thought_signature: Option<Json>,
) -> (r: (GeminiContent, GeminiContent))
    ensures
        r.0.role@ == "model"@,
        r.0.parts@.len() == 1,
        r.0.parts@[0].function_call matches Some(c) && c.id@ == call_id@ && c.name@ == tool_name@
            && c.args@ == args@,
        r.0.parts@[0].function_response is None,
        r.0.parts@[0].thought_signature.deep_view() == thought_signature.deep_view(),
        r.1.role@ == "user"@,
        r.1.parts@.len() == 1,
        r.1.parts@[0].function_call is None,
        r.1.parts@[0].thought_signature is None,
        r.1.parts@[0].function_response matches Some(f) && f.id@ == call_id@ && f.name@ == tool_name@
            && f.response@ == JsonView::Object(seq![("output"@, output@)]),
{
    let mut model_parts: Vec<GeminiPart> = Vec::new();
    model_parts.push(
        GeminiPart {
            function_call: Some(
                GeminiFunctionCall { id: call_id.clone(), name: tool_name.clone(), args },
            ),
            function_response: None,
            thought_signature,
        },
    );
    let mut resp: Vec<(String, Json)> = Vec::new();
    resp.push(("output".to_owned(), output.copy()));
    proof {
        crate::json::lemma_entries_view(resp@);
        assert(crate::json::entries_view(resp@) =~= seq![("output"@, output@)]);
    }
    let mut user_parts: Vec<GeminiPart> = Vec::new();
    user_parts.push(
        GeminiPart {
            function_call: None,
            function_response: Some(
                GeminiFunctionResponse { id: call_id, name: tool_name, response: Json::Object(resp) },
            ),
            thought_signature: None,
        },
    );
    (
        GeminiContent { role: "model".to_owned(), parts: model_parts },
        GeminiContent { role: "user".to_owned(), parts: user_parts },
    )
}

/// A catalogue tool as a request declares it: the name the model calls it
/// by, the name its server gave it, its description, and its parameter
/// schema (for Gemini, already in the form Gemini accepts).
pub struct ToolDescriptor {
    pub name: String,
    pub original_name: String,
    pub description: Option<String>,
    pub parameters: Json,
}

/// A Gemini function declaration: the tool's name, its description (its
/// original name when it has none) and its parameters.
pub open spec fn gemini_declaration_of(d: ToolDescriptor) -> JsonView {
    JsonView::Object(
        seq![
            ("description"@, JsonView::Str(match d.description {
                Some(t) => t@,
                None => d.original_name@,
            })),
            ("name"@, JsonView::Str(d.name@)),
            ("parameters"@, d.parameters@),
        ],
    )
}

/// Gemini's `tools`: Google search with web search; the function
/// declarations of the catalogue when it has tools; none when that leaves
/// nothing.
pub open spec fn gemini_tools_of(web_search: bool, tools: Seq<ToolDescriptor>) -> Option<JsonView> {
    let search = if web_search {
        seq![JsonView::Object(seq![("google_search"@, JsonView::Object(Seq::empty()))])]
    } else {
        Seq::<JsonView>::empty()
    };
    let declarations = if tools.len() > 0 {
        seq![
            JsonView::Object(
                seq![("function_declarations"@, JsonView::Array(tools.map_values(|d: ToolDescriptor| gemini_declaration_of(d))))],
            ),
        ]
    } else {
        Seq::<JsonView>::empty()
    };
    if search + declarations =~= Seq::<JsonView>::empty() {
        None
    } else {
        Some(JsonView::Array(search + declarations))
    }
}

fn gemini_declaration(d: &ToolDescriptor) -> (r: Json)
    ensures
        r@ == gemini_declaration_of(*d),
{
    let description = match &d.description {
        Some(t) => t.clone(),
        None => d.original_name.clone(),
    };
    let mut m: Vec<(String, Json)> = Vec::new();
    m.push(("description".to_owned(), Json::Str(description)));
    m.push(("name".to_owned(), Json::Str(d.name.clone())));
    m.push(("parameters".to_owned(), d.parameters.copy()));
    proof {
        crate::json::lemma_entries_view(m@);
        assert(crate::json::entries_view(m@) =~= seq![
            ("description"@, JsonView::Str(match d.description {
                Some(t) => t@,
                None => d.original_name@,
            })),
            ("name"@, JsonView::Str(d.name@)),
            ("parameters"@, d.parameters@),
        ]);
    }
    Json::Object(m)
}

/// `tools` is the tool catalogue, in the order it is declared.
pub fn build_gemini_tools(web_search: bool, tools: &Vec<ToolDescriptor>) -> (r: Option<Json>)
    ensures
        r.deep_view() == gemini_tools_of(web_search, tools@),
{
    let mut out: Vec<Json> = Vec::new();
    if web_search {
        let mut g: Vec<(String, Json)> = Vec::new();
        g.push(("google_search".to_owned(), Json::Object(Vec::new())));
        proof {
            crate::json::lemma_entries_view(g@);
            let e: Seq<(String, Json)> = Seq::empty();
            crate::json::lemma_entries_view(e);
            assert(crate::json::entries_view(e) =~= Seq::empty());
            assert(crate::json::entries_view(g@) =~= seq![("google_search"@, JsonView::Object(Seq::empty()))]);
        }
        out.push(Json::Object(g));
    }
    let ghost search = crate::json::items_view(out@);
    proof {
        crate::json::lemma_items_view(out@);
        if web_search {
            assert(search =~= seq![JsonView::Object(seq![("google_search"@, JsonView::Object(Seq::empty()))])]);
        } else {
            assert(search =~= Seq::<JsonView>::empty());
        }
    }
    let mut decls: Vec<Json> = Vec::new();
    let mut i: usize = 0;
    while i < tools.len()
        invariant
            i <= tools@.len(),
            decls@.len() == i,
            forall|k: int| 0 <= k < i ==> (#[trigger] decls@[k])@ == gemini_declaration_of(tools@[k]),
        decreases tools@.len() - i,
    {
        decls.push(gemini_declaration(&tools[i]));
        i = i + 1;
    }
    let ghost dv = crate::json::items_view(decls@);
    proof {
        crate::json::lemma_items_view(decls@);
        assert(dv =~= tools@.map_values(|d: ToolDescriptor| gemini_declaration_of(d)));
    }
    if tools.len() > 0 {
        let mut f: Vec<(String, Json)> = Vec::new();
        f.push(("function_declarations".to_owned(), Json::Array(decls)));
        proof {
            crate::json::lemma_entries_view(f@);
            assert(crate::json::entries_view(f@) =~= seq![("function_declarations"@, JsonView::Array(dv))]);
        }
        let ghost before = out@;
        out.push(Json::Object(f));
        proof {
            crate::json::lemma_items_view(before);
            crate::json::lemma_items_view(out@);
            assert(crate::json::items_view(out@) =~= search + seq![
                JsonView::Object(seq![("function_declarations"@, JsonView::Array(dv))]),
            ]);
        }
    }
    proof {
        crate::json::lemma_items_view(out@);
    }
    if out.len() == 0 {
        proof {
            assert(crate::json::items_view(out@) =~= Seq::<JsonView>::empty());
        }
        None
    } else {
        Some(Json::Array(out))
    }
}

} // verus!
