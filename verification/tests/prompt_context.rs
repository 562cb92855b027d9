use grengin_api::prompt_context::{
    add_system_prompt, append_artifact_hint, append_skill_context, artifacts_enabled, insert_server_context,
    join_texts, prepend_project_context, project_block, project_context, skill_block, skills_context, sort_texts,
    ChatRole, Prompt, SkillText,
};

fn prompt(role: ChatRole, text: &str, files: Vec<u8>) -> Prompt<u8> {
    Prompt { role, text: text.to_string(), files }
}

fn shape(prompts: &[Prompt<u8>]) -> Vec<(ChatRole, String, Vec<u8>)> {
    prompts.iter().map(|p| (p.role, p.text.clone(), p.files.clone())).collect()
}

fn strings(v: &[&str]) -> Vec<String> {
    v.iter().map(|s| s.to_string()).collect()
}

#[test]
fn texts_sort_by_character_and_keep_duplicates() {
    assert_eq!(sort_texts(strings(&["b", "a", "B", "a"])), strings(&["B", "a", "a", "b"]));
    assert!(sort_texts(Vec::new()).is_empty());
}

#[test]
fn texts_join_with_the_separator() {
    assert_eq!(join_texts(&strings(&["x", "y", "z"]), "|"), "x|y|z");
    assert_eq!(join_texts(&strings(&["only"]), "|"), "only");
    assert_eq!(join_texts(&Vec::new(), "|"), "");
}

#[test]
fn project_blocks_need_instructions() {
    assert_eq!(project_block("Alpha", Some("  do this \n")), Some("## Project: Alpha\ndo this".to_string()));
    assert_eq!(project_block("Alpha", Some("   ")), None);
    assert_eq!(project_block("Alpha", None), None);
}

#[test]
fn project_context_lists_sorted_sections() {
    assert_eq!(project_context(Vec::new()), None);
    let ctx = project_context(strings(&["## Project: B\nb", "## Project: A\na"])).unwrap();
    assert_eq!(
        ctx,
        "You are working within the context of the following project(s). Follow their instructions carefully.\n\n\
         ## Project: A\na\n\n---\n\n## Project: B\nb"
    );
}

#[test]
fn skill_blocks_show_instructions_and_knowledge() {
    assert_eq!(skill_block("Writer", Some(" be brief "), ""), Some("## Skill: Writer\nbe brief".to_string()));
    assert_eq!(skill_block("Docs", None, "facts"), Some("## Skill: Docs\n\n### Knowledge\nfacts".to_string()));
    assert_eq!(
        skill_block("Both", Some("x"), "k"),
        Some("## Skill: Both\nx\n\n### Knowledge\nk".to_string())
    );
    assert_eq!(skill_block("None", Some("  "), ""), None);
}

#[test]
fn skills_context_skips_empty_skills() {
    let skills = vec![
        SkillText { name: "A".into(), instructions: Some("a".into()), knowledge: String::new() },
        SkillText { name: "E".into(), instructions: None, knowledge: String::new() },
        SkillText { name: "B".into(), instructions: None, knowledge: "kb".into() },
    ];
    assert_eq!(skills_context(&skills), Some("## Skill: A\na\n\n---\n\n## Skill: B\n\n### Knowledge\nkb".to_string()));
    assert_eq!(skills_context(&skills[1..2].iter().map(|s| SkillText {
        name: s.name.clone(),
        instructions: s.instructions.clone(),
        knowledge: s.knowledge.clone(),
    }).collect()), None);
}

#[test]
fn system_prompt_goes_first_unless_blank() {
    let mut p = vec![prompt(ChatRole::User, "hi", vec![1])];
    add_system_prompt(&mut p, "  ".to_string());
    assert_eq!(p.len(), 1);
    add_system_prompt(&mut p, "Be kind".to_string());
    assert_eq!(shape(&p), vec![(ChatRole::System, "Be kind".to_string(), vec![]), (ChatRole::User, "hi".to_string(), vec![1])]);
}

#[test]
fn project_context_goes_before_the_system_prompt() {
    let mut p = vec![prompt(ChatRole::User, "q", vec![]), prompt(ChatRole::System, "sys", vec![7])];
    prepend_project_context(&mut p, "proj".to_string());
    assert_eq!(shape(&p)[1], (ChatRole::System, "proj\n\n---\n\nsys".to_string(), vec![7]));
    assert_eq!(p.len(), 2);
    let mut q = vec![prompt(ChatRole::User, "q", vec![])];
    prepend_project_context(&mut q, "proj".to_string());
    assert_eq!(shape(&q)[0], (ChatRole::System, "proj".to_string(), vec![]));
}

#[test]
fn skills_and_artifact_hint_go_after_the_system_prompt() {
    let mut p = vec![prompt(ChatRole::System, "sys", vec![]), prompt(ChatRole::User, "q", vec![])];
    append_skill_context(&mut p, "skills".to_string());
    append_artifact_hint(&mut p, "hint".to_string());
    assert_eq!(p[0].text, "sys\n\n---\n\nskills\n\nhint");
    let mut q: Vec<Prompt<u8>> = Vec::new();
    append_artifact_hint(&mut q, "hint".to_string());
    assert_eq!(shape(&q), vec![(ChatRole::System, "hint".to_string(), vec![])]);
}

#[test]
fn server_context_goes_where_the_conversation_starts() {
    let mut p = vec![
        prompt(ChatRole::System, "a", vec![]),
        prompt(ChatRole::System, "b", vec![]),
        prompt(ChatRole::User, "q", vec![]),
        prompt(ChatRole::System, "late", vec![]),
    ];
    insert_server_context(&mut p, "ctx".to_string());
    let texts: Vec<String> = p.iter().map(|x| x.text.clone()).collect();
    assert_eq!(texts, strings(&["a", "b", "ctx", "q", "late"]));
    let mut only_system = vec![prompt(ChatRole::System, "a", vec![])];
    insert_server_context(&mut only_system, "ctx".to_string());
    assert_eq!(only_system[1].text, "ctx");
}

#[test]
fn artifact_skill_is_recognised() {
    assert!(artifacts_enabled(&strings(&["summarize", "artifact-create"])));
    assert!(!artifacts_enabled(&strings(&["artifact"])));
}
