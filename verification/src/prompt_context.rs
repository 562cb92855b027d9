//! The system context of a chat request: the administrator's system prompt,
//! the instructions of the conversation's projects and active skills, and
//! where each is placed among the prompts sent to the model.
use vstd::prelude::*;

use crate::text::{
    char_vec, lemma_text_lt_irreflexive, lemma_text_lt_total, lemma_text_lt_transitive, text_less, text_lt, trim,
    trim_seq,
};
use vstd::string::StringExecFns;

verus! {

broadcast use vstd::seq_lib::to_multiset_insert;

// ---------------------------------------------------------------------------
// Texts in order, and joined.
/// The texts in ascending character order.
pub open spec fn ascending_texts(s: Seq<Seq<char>>) -> bool {
    forall|i: int, j: int| 0 <= i < j < s.len() ==> !text_lt(#[trigger] s[j], #[trigger] s[i])
}

proof fn lemma_text_lt_asymmetric(a: Seq<char>, b: Seq<char>)
    requires
        text_lt(a, b),
    ensures
        !text_lt(b, a),
{
    if text_lt(b, a) {
        lemma_text_lt_transitive(a, b, a);
        lemma_text_lt_irreflexive(a);
    }
}

proof fn lemma_text_le_transitive(a: Seq<char>, b: Seq<char>, c: Seq<char>)
    requires
        !text_lt(b, a),
        !text_lt(c, b),
    ensures
        !text_lt(c, a),
{
    lemma_text_lt_total(a, b);
    if text_lt(c, a) && text_lt(a, b) {
        lemma_text_lt_transitive(c, a, b);
    }
}

/// Sorts texts by character (the order `Vec::sort` gives `String`s).
pub fn sort_texts(v: Vec<String>) -> (r: Vec<String>)
    ensures
        r@.len() == v@.len(),
        ascending_texts(r.deep_view()),
        r.deep_view().to_multiset() == v.deep_view().to_multiset(),
{
    let ghost input = v.deep_view();
    let mut out: Vec<String> = Vec::new();
    let rest = v;
    let mut i: usize = 0;
    let n = rest.len();
    let mut keys: Vec<Vec<char>> = Vec::new();
    proof {
        assert(input.take(0) =~= Seq::<Seq<char>>::empty());
        assert(out.deep_view() =~= Seq::<Seq<char>>::empty());
    }
    while i < n
        invariant
            n == rest@.len(),
            i <= n,
            rest.deep_view() == input,
            out@.len() == i,
            keys@.len() == i,
            forall|k: int| 0 <= k < i ==> (#[trigger] keys@[k])@ == out@[k]@,
            ascending_texts(out.deep_view()),
            out.deep_view().to_multiset() == input.take(i as int).to_multiset(),
        decreases n - i,
    {
        let x = rest[i].clone();
        let xk = char_vec(x.as_str());
        let mut p: usize = 0;
        while p < out.len() && !text_less(&xk, &keys[p])
            invariant
                p <= out@.len(),
                out@.len() == keys@.len(),
                forall|k: int| 0 <= k < keys@.len() ==> (#[trigger] keys@[k])@ == out@[k]@,
                xk@ == x@,
                forall|k: int| 0 <= k < p ==> !text_lt(x@, (#[trigger] out@[k])@),
            decreases out@.len() - p,
        {
            p = p + 1;
        }
        let ghost o0 = out.deep_view();
        proof {
            assert(rest.deep_view()[i as int] == rest@[i as int]@);
            assert(x@ == input[i as int]);
        }
        out.insert(p, x);
        keys.insert(p, xk);
        proof {
            let o1 = out.deep_view();
            assert(o1 =~= o0.insert(p as int, input[i as int]));
            assert(input.take(i + 1) =~= input.take(i as int).push(input[i as int]));
            assert(input.take(i as int).push(input[i as int]) =~= input.take(i as int).insert(
                i as int,
                input[i as int],
            ));
            assert forall|k: int| 0 <= k < i + 1 implies (#[trigger] keys@[k])@ == out@[k]@ by {}
            assert forall|a: int, b: int| 0 <= a < b < o1.len() implies !text_lt(#[trigger] o1[b], #[trigger] o1[a]) by {
                let x = input[i as int];
                if b < p {
                    assert(o1[a] == o0[a] && o1[b] == o0[b]);
                } else if b == p {
                    assert(o1[a] == o0[a]);
                } else if a == p {
                    assert(o1[b] == o0[b - 1]);
                    assert(text_lt(x, o0[p as int]));
                    lemma_text_lt_asymmetric(x, o0[p as int]);
                    if b - 1 > p {
                        lemma_text_le_transitive(x, o0[p as int], o0[b - 1]);
                    }
                } else if a < p {
                    assert(o1[a] == o0[a] && o1[b] == o0[b - 1]);
                } else {
                    assert(o1[a] == o0[a - 1] && o1[b] == o0[b - 1]);
                }
            }
        }
        i = i + 1;
    }
    proof {
        assert(input.take(n as int) =~= input);
    }
    out
}

/// The texts joined, with `sep` between each two.
pub open spec fn joined(parts: Seq<Seq<char>>, sep: Seq<char>) -> Seq<char>
    decreases parts.len(),
{
    if parts.len() == 0 {
        Seq::empty()
    } else if parts.len() == 1 {
        parts[0]
    } else {
        joined(parts.drop_last(), sep) + sep + parts.last()
    }
}

pub fn join_texts(parts: &Vec<String>, sep: &str) -> (r: String)
    ensures
        r@ == joined(parts.deep_view(), sep@),
{
    let ghost dv = parts.deep_view();
    if parts.len() == 0 {
        return String::new();
    }
    let mut out = parts[0].clone();
    proof {
        assert(dv.take(1).len() == 1);
        assert(dv.take(1)[0] == parts@[0]@);
    }
    let mut i: usize = 1;
    while i < parts.len()
        invariant
            1 <= i <= parts@.len(),
            dv == parts.deep_view(),
            out@ == joined(dv.take(i as int), sep@),
        decreases parts@.len() - i,
    {
        proof {
            assert(dv.take(i + 1).drop_last() =~= dv.take(i as int));
            assert(dv.take(i + 1).last() == parts@[i as int]@);
        }
        out.append(sep);
        out.append(parts[i].as_str());
        i = i + 1;
    }
    proof {
        assert(dv.take(parts@.len() as int) =~= dv);
    }
    out
}

/// What separates the sections of a system prompt.
pub const SECTION_SEPARATOR: &'static str = "\n\n---\n\n";

/// What opens the project context of a system prompt.
pub const PROJECT_PREAMBLE: &'static str =
    "You are working within the context of the following project(s). Follow their instructions carefully.\n\n";

/// A project's section of the system prompt: its name and its trimmed
/// instructions; none when it has no instructions or they are blank.
pub open spec fn project_block_of(name: Seq<char>, instructions: Option<Seq<char>>) -> Option<Seq<char>> {
    match instructions {
        None => None,
        Some(t) => if trim_seq(t).len() == 0 {
            None
        } else {
            Some("## Project: "@ + name + "\n"@ + trim_seq(t))
        },
    }
}

pub fn project_block(name: &str, instructions: Option<&str>) -> (r: Option<String>)
    ensures
        r.deep_view() == project_block_of(name@, instructions.deep_view()),
{
    match instructions {
        None => None,
        Some(t) => {
            let trimmed = trim(t);
            if trimmed.as_str().is_empty() {
                None
            } else {
                let mut b = "## Project: ".to_owned();
                b.append(name);
                b.append("\n");
                b.append(trimmed.as_str());
                Some(b)
            }
        },
    }
}

/// The project context of a system prompt: the preamble, then the projects'
/// sections in character order, separated; none without sections.
pub fn project_context(blocks: Vec<String>) -> (r: Option<String>)
    ensures
        blocks@.len() == 0 ==> r is None,
        blocks@.len() > 0 ==> (r matches Some(t) && exists|s: Seq<Seq<char>>|
            #![trigger ascending_texts(s)]
            ascending_texts(s) && s.to_multiset() == blocks.deep_view().to_multiset() && t@ == PROJECT_PREAMBLE@
                + joined(s, SECTION_SEPARATOR@)),
{
    if blocks.len() == 0 {
        return None;
    }
    let ghost input = blocks.deep_view();
    let sorted = sort_texts(blocks);
    let body = join_texts(&sorted, SECTION_SEPARATOR);
    let mut t = PROJECT_PREAMBLE.to_owned();
    t.append(body.as_str());
    proof {
        assert(ascending_texts(sorted.deep_view()));
    }
    Some(t)
}

/// A skill's section of the system prompt: its name, its trimmed
/// instructions when not blank, and its knowledge when not empty; none when
/// it has neither.
pub open spec fn skill_block_of(name: Seq<char>, instructions: Option<Seq<char>>, knowledge: Seq<char>) -> Option<
    Seq<char>,
> {
    let ins = match instructions {
        Some(t) => trim_seq(t),
        None => Seq::empty(),
    };
    if ins.len() == 0 && knowledge.len() == 0 {
        None
    } else {
        Some(
            "## Skill: "@ + name + (if ins.len() > 0 {
                "\n"@ + ins
            } else {
                Seq::empty()
            }) + (if knowledge.len() > 0 {
                "\n\n### Knowledge\n"@ + knowledge
            } else {
                Seq::empty()
            }),
        )
    }
}

pub fn skill_block(name: &str, instructions: Option<&str>, knowledge: &str) -> (r: Option<String>)
    ensures
        r.deep_view() == skill_block_of(name@, instructions.deep_view(), knowledge@),
{
    let ins = match instructions {
        Some(t) => trim(t),
        None => String::new(),
    };
    if ins.as_str().is_empty() && knowledge.is_empty() {
        return None;
    }
    let mut b = "## Skill: ".to_owned();
    b.append(name);
    let ghost b0 = b@;
    if !ins.as_str().is_empty() {
        b.append("\n");
        b.append(ins.as_str());
    }
    let ghost b1 = b@;
    if !knowledge.is_empty() {
        b.append("\n\n### Knowledge\n");
        b.append(knowledge);
    }
    proof {
        let insv = match instructions {
            Some(t) => trim_seq(t@),
            None => Seq::<char>::empty(),
        };
        assert(ins@ == insv);
        assert(b1 =~= b0 + (if insv.len() > 0 {
            "\n"@ + insv
        } else {
            Seq::<char>::empty()
        }));
        assert(b@ =~= b1 + (if knowledge@.len() > 0 {
            "\n\n### Knowledge\n"@ + knowledge@
        } else {
            Seq::<char>::empty()
        }));
    }
    Some(b)
}

/// A skill as the system prompt shows it.
pub struct SkillText {
    pub name: String,
    pub instructions: Option<String>,
    pub knowledge: String,
}

/// The sections of the skills that have something to say, in order.
pub open spec fn skill_sections(skills: Seq<SkillText>) -> Seq<Seq<char>>
    decreases skills.len(),
{
    if skills.len() == 0 {
        Seq::empty()
    } else {
        let rest = skill_sections(skills.drop_last());
        let k = skills.last();
        match skill_block_of(k.name@, k.instructions.deep_view(), k.knowledge@) {
            Some(b) => rest.push(b),
            None => rest,
        }
    }
}

/// The skill context of a system prompt: the skills' sections, separated;
/// none when no skill has one.
pub fn skills_context(skills: &Vec<SkillText>) -> (r: Option<String>)
    ensures
        skill_sections(skills@).len() == 0 ==> r is None,
        skill_sections(skills@).len() > 0 ==> (r matches Some(t) && t@ == joined(
            skill_sections(skills@),
            SECTION_SEPARATOR@,
        )),
{
    let mut blocks: Vec<String> = Vec::new();
    let mut i: usize = 0;
    while i < skills.len()
        invariant
            i <= skills@.len(),
            blocks.deep_view() == skill_sections(skills@.take(i as int)),
        decreases skills@.len() - i,
    {
        proof {
            assert(skills@.take(i + 1).drop_last() =~= skills@.take(i as int));
            assert(skills@.take(i + 1).last() == skills@[i as int]);
        }
        let k = &skills[i];
        let ins = match &k.instructions {
            Some(t) => Some(t.as_str()),
            None => None,
        };
        match skill_block(k.name.as_str(), ins, k.knowledge.as_str()) {
            Some(b) => {
                let ghost before = blocks.deep_view();
                blocks.push(b);
                assert(blocks.deep_view() =~= before.push(b@));
            },
            None => {},
        }
        i = i + 1;
    }
    proof {
        assert(skills@.take(skills@.len() as int) =~= skills@);
    }
    if blocks.len() == 0 {
        None
    } else {
        Some(join_texts(&blocks, SECTION_SEPARATOR))
    }
}

// ---------------------------------------------------------------------------
// Placing the sections among the prompts.
/// Who a prompt is from.
#[derive(Debug, Clone, Copy, PartialEq, Eq, Structural)]
pub enum ChatRole {
    System,
    User,
    Assistant,
}

/// A prompt sent to the model, with the files it carries.
pub struct Prompt<F> {
    pub role: ChatRole,
    pub text: String,
    pub files: Vec<F>,
}

/// The prompt at `i` is the first system prompt.
pub open spec fn is_first_system<F>(p: Seq<Prompt<F>>, i: int) -> bool {
    &&& 0 <= i < p.len()
    &&& p[i].role == ChatRole::System
    &&& forall|j: int| 0 <= j < i ==> (#[trigger] p[j]).role != ChatRole::System
}

pub open spec fn has_system<F>(p: Seq<Prompt<F>>) -> bool {
    exists|i: int| 0 <= i < p.len() && (#[trigger] p[i]).role == ChatRole::System
}

/// The conversation starts at `k`: every prompt before it is a system
/// prompt, and the one at `k`, if any, is not.
pub open spec fn is_first_turn<F>(p: Seq<Prompt<F>>, k: int) -> bool {
    &&& 0 <= k <= p.len()
    &&& (k == p.len() || p[k].role != ChatRole::System)
    &&& forall|j: int| 0 <= j < k ==> (#[trigger] p[j]).role == ChatRole::System
}

/// `new` is `old` with a system prompt of `text`, without files, at `k`.
pub open spec fn inserted_at<F>(old: Seq<Prompt<F>>, new: Seq<Prompt<F>>, k: int, text: Seq<char>) -> bool {
    &&& new.len() == old.len() + 1
    &&& new[k].role == ChatRole::System
    &&& new[k].text@ == text
    &&& new[k].files@.len() == 0
    &&& forall|j: int| 0 <= j < k ==> #[trigger] new[j] == old[j]
    &&& forall|j: int| k <= j < old.len() ==> new[j + 1] == #[trigger] old[j]
}

/// A section joined to an existing system prompt: before it or after it.
pub open spec fn merged_text(existing: Seq<char>, text: Seq<char>, sep: Seq<char>, before: bool) -> Seq<char> {
    if before {
        text + sep + existing
    } else {
        existing + sep + text
    }
}

/// `new` is `old` with `text` joined to its first system prompt, or, when
/// it has none, with a system prompt of `text` in front.
pub open spec fn joined_to_system<F>(
    old: Seq<Prompt<F>>,
    new: Seq<Prompt<F>>,
    text: Seq<char>,
    sep: Seq<char>,
    before: bool,
) -> bool {
    &&& forall|i: int|
        is_first_system(old, i) ==> {
            &&& new.len() == old.len()
            &&& new[i].role == ChatRole::System
            &&& new[i].text@ == merged_text(old[i].text@, text, sep, before)
            &&& new[i].files@ == old[i].files@
            &&& forall|j: int| 0 <= j < old.len() && j != i ==> #[trigger] new[j] == old[j]
        }
    &&& !has_system(old) ==> inserted_at(old, new, 0, text)
}

fn first_system_index<F>(prompts: &Vec<Prompt<F>>) -> (r: Option<usize>)
    ensures
        match r {
            Some(i) => is_first_system(prompts@, i as int),
            None => !has_system(prompts@),
        },
{
    let mut i: usize = 0;
    while i < prompts.len()
        invariant
            i <= prompts@.len(),
            forall|j: int| 0 <= j < i ==> (#[trigger] prompts@[j]).role != ChatRole::System,
        decreases prompts@.len() - i,
    {
        if prompts[i].role == ChatRole::System {
            return Some(i);
        }
        i = i + 1;
    }
    None
}

fn insert_system<F>(prompts: &mut Vec<Prompt<F>>, k: usize, text: String)
    requires
        k <= old(prompts)@.len(),
    ensures
        inserted_at(old(prompts)@, final(prompts)@, k as int, text@),
{
    prompts.insert(k, Prompt { role: ChatRole::System, text, files: Vec::new() });
}

fn join_to_system<F>(prompts: &mut Vec<Prompt<F>>, text: String, sep: &str, before: bool)
    ensures
        joined_to_system(old(prompts)@, final(prompts)@, text@, sep@, before),
{
    match first_system_index(prompts) {
        Some(i) => {
            let ghost o = prompts@;
            let mut p = prompts.remove(i);
            let merged = if before {
                let mut m = text;
                m.append(sep);
                m.append(p.text.as_str());
                m
            } else {
                let mut m = p.text.clone();
                m.append(sep);
                m.append(text.as_str());
                m
            };
            p.text = merged;
            prompts.insert(i, p);
            proof {
                assert forall|k: int| is_first_system(o, k) implies k == i by {
                    if k < i {
                        assert(o[k].role != ChatRole::System);
                    } else if k > i {
                        assert(o[i as int].role != ChatRole::System);
                    }
                }
                assert forall|j: int| 0 <= j < o.len() && j != i implies #[trigger] prompts@[j] == o[j] by {
                    if j < i {
                        assert(prompts@[j] == o.remove(i as int)[j]);
                    } else {
                        assert(prompts@[j] == o.remove(i as int)[j - 1]);
                    }
                }
            }
        },
        None => {
            insert_system(prompts, 0, text);
        },
    }
}

/// Puts the administrator's system prompt in front, unless it is blank.
pub fn add_system_prompt<F>(prompts: &mut Vec<Prompt<F>>, text: String)
    ensures
        trim_seq(text@).len() > 0 ==> inserted_at(old(prompts)@, final(prompts)@, 0, text@),
        trim_seq(text@).len() == 0 ==> final(prompts)@ == old(prompts)@,
{
    let t = trim(text.as_str());
    if !t.as_str().is_empty() {
        insert_system(prompts, 0, text);
    }
}

/// Puts the project context in front of the first system prompt.
pub fn prepend_project_context<F>(prompts: &mut Vec<Prompt<F>>, context: String)
    ensures
        joined_to_system(old(prompts)@, final(prompts)@, context@, SECTION_SEPARATOR@, true),
{
    join_to_system(prompts, context, SECTION_SEPARATOR, true);
}

/// Puts the skill context after the first system prompt.
pub fn append_skill_context<F>(prompts: &mut Vec<Prompt<F>>, context: String)
    ensures
        joined_to_system(old(prompts)@, final(prompts)@, context@, SECTION_SEPARATOR@, false),
{
    join_to_system(prompts, context, SECTION_SEPARATOR, false);
}

/// Puts the artifact hint after the first system prompt, a blank line
/// between.
pub fn append_artifact_hint<F>(prompts: &mut Vec<Prompt<F>>, hint: String)
    ensures
        joined_to_system(old(prompts)@, final(prompts)@, hint@, "\n\n"@, false),
{
    join_to_system(prompts, hint, "\n\n", false);
}

/// Puts the MCP server context where the conversation starts: after the
/// system prompts in front.
pub fn insert_server_context<F>(prompts: &mut Vec<Prompt<F>>, context: String)
    ensures
        forall|k: int| is_first_turn(old(prompts)@, k) ==> inserted_at(old(prompts)@, final(prompts)@, k, context@),
{
    let mut k: usize = 0;
    while k < prompts.len() && prompts[k].role == ChatRole::System
        invariant
            k <= prompts@.len(),
            forall|j: int| 0 <= j < k ==> (#[trigger] prompts@[j]).role == ChatRole::System,
        decreases prompts@.len() - k,
    {
        k = k + 1;
    }
    let ghost o = prompts@;
    proof {
        assert forall|m: int| is_first_turn(o, m) implies m == k by {
            if m < k {
                assert(o[m].role == ChatRole::System);
            } else if m > k {
                assert(o[k as int].role != ChatRole::System);
            }
        }
    }
    insert_system(prompts, k, context);
}

/// The identifier of the skill that lets the model write artifacts.
pub const ARTIFACT_SKILL: &'static str = "artifact-create";

/// Whether one of the active skills is the artifact skill.
pub fn artifacts_enabled(skill_identifiers: &Vec<String>) -> (r: bool)
    ensures
        r == exists|i: int| 0 <= i < skill_identifiers@.len() && #[trigger] skill_identifiers@[i]@ == ARTIFACT_SKILL@,
{
    let mut i: usize = 0;
    while i < skill_identifiers.len()
        invariant
            i <= skill_identifiers@.len(),
            forall|j: int| 0 <= j < i ==> #[trigger] skill_identifiers@[j]@ != ARTIFACT_SKILL@,
        decreases skill_identifiers@.len() - i,
    {
        if crate::text::same_text(skill_identifiers[i].as_str(), ARTIFACT_SKILL) {
            return true;
        }
        i = i + 1;
    }
    false
}

/// Sorting texts has one outcome: two ascending arrangements of the same
/// texts are the same sequence.
pub proof fn law_sorted_texts_are_unique(s1: Seq<Seq<char>>, s2: Seq<Seq<char>>)
    requires
        ascending_texts(s1),
        ascending_texts(s2),
        s1.to_multiset() == s2.to_multiset(),
    ensures
        s1 == s2,
    decreases s1.len(),
{
    broadcast use vstd::seq_lib::to_multiset_len, vstd::seq_lib::to_multiset_contains, vstd::seq_lib::to_multiset_remove;

    assert(s1.to_multiset().len() == s1.len());
    assert(s2.to_multiset().len() == s2.len());
    if s1.len() == 0 {
        assert(s2.len() == 0);
        assert(s1 =~= s2);
    } else {
        assert(s2.len() == s1.len());
        let a = s1[0];
        let b = s2[0];
        assert(s1.to_multiset().count(a) > 0) by {
            assert(s1.contains(a));
        }
        assert(s2.contains(a));
        let j = choose|j: int| 0 <= j < s2.len() && s2[j] == a;
        if j > 0 {
            assert(!text_lt(s2[j], s2[0]));
        }
        assert(s1.contains(b)) by {
            assert(s2.contains(b));
            assert(s2.to_multiset().count(b) > 0);
            assert(s1.to_multiset().count(b) > 0);
        }
        let k = choose|k: int| 0 <= k < s1.len() && s1[k] == b;
        if k > 0 {
            assert(!text_lt(s1[k], s1[0]));
        }
        lemma_text_lt_total(a, b);
        assert(a == b);
        let r1 = s1.drop_first();
        let r2 = s2.drop_first();
        assert(s1.remove(0) =~= r1);
        assert(s2.remove(0) =~= r2);
        assert(r1.to_multiset() == s1.to_multiset().remove(a));
        assert(r2.to_multiset() == s2.to_multiset().remove(b));
        assert forall|x: int, y: int| 0 <= x < y < r1.len() implies !text_lt(#[trigger] r1[y], #[trigger] r1[x]) by {
            assert(r1[x] == s1[x + 1] && r1[y] == s1[y + 1]);
        }
        assert forall|x: int, y: int| 0 <= x < y < r2.len() implies !text_lt(#[trigger] r2[y], #[trigger] r2[x]) by {
            assert(r2[x] == s2[x + 1] && r2[y] == s2[y + 1]);
        }
        law_sorted_texts_are_unique(r1, r2);
        assert(s1 =~= s2) by {
            assert forall|x: int| 0 <= x < s1.len() implies s1[x] == s2[x] by {
                if x > 0 {
                    assert(s1[x] == r1[x - 1] && s2[x] == r2[x - 1]);
                }
            }
        }
    }
}

} // verus!
