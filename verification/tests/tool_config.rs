use grengin_api::json::JsonNumber;
use grengin_api::json::{parse_json, Json};
use grengin_api::llm::tool_config::{
    build_gemini_tool_config, build_gemini_tool_messages, build_gemini_tools, build_mistral_tool_choice,
    make_openai_function_output, ToolDescriptor,
};

fn names(v: &[&str]) -> Vec<String> {
    v.iter().map(|s| s.to_string()).collect()
}

#[test]
fn mistral_tool_choice() {
    assert!(build_mistral_tool_choice(&names(&["a"]), &names(&["only"]), false).is_none());
    let c = build_mistral_tool_choice(&names(&["a"]), &names(&["only"]), true).unwrap();
    assert_eq!(c.get("type").and_then(|v| v.as_str()).map(|s| s.as_str()), Some("function"));
    assert_eq!(
        c.get("function").and_then(|f| f.get("name")).and_then(|v| v.as_str()).map(|s| s.as_str()),
        Some("only")
    );
    let c = build_mistral_tool_choice(&names(&[]), &names(&["only"]), true).unwrap();
    assert_eq!(c.as_str().map(|s| s.as_str()), Some("auto"));
    let c = build_mistral_tool_choice(&names(&["a"]), &names(&["x", "y"]), true).unwrap();
    assert_eq!(c.as_str().map(|s| s.as_str()), Some("auto"));
}

#[test]
fn gemini_tool_config() {
    assert!(build_gemini_tool_config(true, &names(&["a"]), &names(&[])).is_none());
    let c = build_gemini_tool_config(true, &names(&["a"]), &names(&["docs"])).unwrap();
    assert!(matches!(c.get("include_server_side_tool_invocations"), Some(Json::Bool(true))));
    let f = c.get("function_calling_config").unwrap();
    assert_eq!(f.get("mode").and_then(|v| v.as_str()).map(|s| s.as_str()), Some("ANY"));
    assert_eq!(f.get("allowed_function_names").and_then(|v| v.as_array()).map(|a| a.len()), Some(1));
    let c = build_gemini_tool_config(false, &names(&[]), &names(&["docs"])).unwrap();
    assert!(c.get("include_server_side_tool_invocations").is_none());
    let f = c.get("function_calling_config").unwrap();
    assert_eq!(f.get("mode").and_then(|v| v.as_str()).map(|s| s.as_str()), Some("AUTO"));
}

#[test]
fn openai_function_output_carries_json_text() {
    let out = parse_json(r#"{"result":[1,2]}"#).unwrap();
    let item = make_openai_function_output("call_7".to_string(), &out);
    assert_eq!(item.item_type, "function_call_output");
    assert_eq!(item.call_id, "call_7");
    assert_eq!(item.output, r#"{"result":[1,2]}"#);
    let item = make_openai_function_output("c".to_string(), &Json::Str("x".to_string()));
    assert_eq!(item.output, "\"x\"");
}

#[test]
fn gemini_tool_messages() {
    let out = parse_json(r#"{"ok":true}"#).unwrap();
    let (model, user) = build_gemini_tool_messages(
        "g1".to_string(),
        "docs".to_string(),
        parse_json(r#"{"q":1}"#).unwrap(),
        &out,
        Some(Json::Str("sig".to_string())),
    );
    assert_eq!(model.role, "model");
    let call = model.parts[0].function_call.as_ref().unwrap();
    assert_eq!(call.id, "g1");
    assert_eq!(call.name, "docs");
    assert!(call.args.get("q").is_some());
    assert!(model.parts[0].thought_signature.is_some());
    assert_eq!(user.role, "user");
    let resp = user.parts[0].function_response.as_ref().unwrap();
    assert_eq!(resp.name, "docs");
    assert!(resp.response.get("output").and_then(|o| o.get("ok")).is_some());
}

fn same(a: &Json, b: &Json) -> bool {
    match (a, b) {
        (Json::Null, Json::Null) => true,
        (Json::Bool(x), Json::Bool(y)) => x == y,
        (Json::Number(JsonNumber::PosInt(x)), Json::Number(JsonNumber::PosInt(y))) => x == y,
        (Json::Number(JsonNumber::NegInt(x)), Json::Number(JsonNumber::NegInt(y))) => x == y,
        (Json::Number(JsonNumber::Float(x)), Json::Number(JsonNumber::Float(y))) => x == y,
        (Json::Str(x), Json::Str(y)) => x == y,
        (Json::Array(x), Json::Array(y)) => x.len() == y.len() && x.iter().zip(y.iter()).all(|(p, q)| same(p, q)),
        (Json::Object(x), Json::Object(y)) => {
            x.len() == y.len() && x.iter().zip(y.iter()).all(|(p, q)| p.0 == q.0 && same(&p.1, &q.1))
        }
        _ => false,
    }
}

fn descriptor(name: &str, original: &str, description: Option<&str>) -> ToolDescriptor {
    ToolDescriptor {
        name: name.to_string(),
        original_name: original.to_string(),
        description: description.map(|d| d.to_string()),
        parameters: parse_json("{\"type\":\"object\"}").unwrap(),
    }
}

#[test]
fn gemini_tools_declare_search_and_catalogue() {
    let tools = vec![descriptor("srv__find", "find", Some("Finds things")), descriptor("srv__get", "get", None)];
    let built = build_gemini_tools(true, &tools).unwrap();
    let expected = parse_json(
        "[{\"google_search\":{}},{\"function_declarations\":[\
         {\"description\":\"Finds things\",\"name\":\"srv__find\",\"parameters\":{\"type\":\"object\"}},\
         {\"description\":\"get\",\"name\":\"srv__get\",\"parameters\":{\"type\":\"object\"}}]}]",
    )
    .unwrap();
    assert!(same(&built, &expected));
}

#[test]
fn gemini_tools_without_anything_are_none() {
    assert!(build_gemini_tools(false, &Vec::new()).is_none());
    let only_search = build_gemini_tools(true, &Vec::new()).unwrap();
    assert!(same(&only_search, &parse_json("[{\"google_search\":{}}]").unwrap()));
}
