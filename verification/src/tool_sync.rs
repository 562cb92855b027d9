//! How the tools an MCP server lists are matched against the tools stored
//! for it: which stored tool each listed tool refreshes, which are new, and
//! which stored tools are switched off.
use vstd::prelude::*;

use crate::json::Json;
use crate::text::same_text;

verus! {

/// A tool stored for a server: the name the server gave it, and whether it
/// is switched on.
pub struct ExistingTool {
    pub original_name: String,
    pub enabled: bool,
}

/// What becomes of one listed tool.
#[derive(Debug, Clone, Copy, PartialEq, Eq, Structural)]
pub enum ToolSyncStep {
    /// The stored tool at this position is refreshed from the listed one.
    Update(usize),
    /// The listed tool is stored as a new tool.
    Insert,
}

/// The outcome of matching: one step per listed tool, in listing order; the
/// positions of the stored tools to switch off, ascending; and how many of
/// those were switched on.
pub struct ToolSyncPlan {
    pub steps: Vec<ToolSyncStep>,
    pub disable: Vec<usize>,
    pub removed: usize,
}

/// Some stored tool has this name.
pub open spec fn has_name(ex: Seq<ExistingTool>, name: Seq<char>) -> bool {
    exists|j: int| 0 <= j < ex.len() && (#[trigger] ex[j]).original_name@ == name
}

/// The stored tool at `j` is the one its name finds: no later stored tool
/// has the same name.
pub open spec fn is_entry(ex: Seq<ExistingTool>, j: int) -> bool {
    &&& 0 <= j < ex.len()
    &&& forall|i: int| j < i < ex.len() ==> (#[trigger] ex[i]).original_name@ != ex[j].original_name@
}

/// The listed tool at `k` has the name of an earlier listed tool.
pub open spec fn listed_before(listed: Seq<String>, k: int) -> bool {
    exists|l: int| 0 <= l < k && (#[trigger] listed[l])@ == listed[k]@
}

/// Some listed tool has this name.
pub open spec fn is_listed(listed: Seq<String>, name: Seq<char>) -> bool {
    exists|l: int| 0 <= l < listed.len() && (#[trigger] listed[l])@ == name
}

/// The step of the listed tool at `k`: the first listed tool of a name
/// refreshes the stored tool that name finds; any other is new.
pub open spec fn step_fits(listed: Seq<String>, ex: Seq<ExistingTool>, k: int, step: ToolSyncStep) -> bool {
    match step {
        ToolSyncStep::Update(j) => {
            &&& !listed_before(listed, k)
            &&& is_entry(ex, j as int)
            &&& ex[j as int].original_name@ == listed[k]@
        },
        ToolSyncStep::Insert => listed_before(listed, k) || !has_name(ex, listed[k]@),
    }
}

/// The stored tool at `j` is switched off: its name finds it and no listed
/// tool has that name.
pub open spec fn disabled(listed: Seq<String>, ex: Seq<ExistingTool>, j: int) -> bool {
    is_entry(ex, j) && !is_listed(listed, ex[j].original_name@)
}

/// How many of the given stored tools are switched on.
pub open spec fn enabled_count(ex: Seq<ExistingTool>, positions: Seq<usize>) -> nat
    decreases positions.len(),
{
    if positions.len() == 0 {
        0
    } else {
        enabled_count(ex, positions.drop_last()) + if ex[positions.last() as int].enabled {
            1nat
        } else {
            0nat
        }
    }
}

fn entry_for(existing: &Vec<ExistingTool>, name: &str) -> (r: Option<usize>)
    ensures
        match r {
            Some(j) => is_entry(existing@, j as int) && existing@[j as int].original_name@ == name@,
            None => !has_name(existing@, name@),
        },
{
    let mut found: Option<usize> = None;
    let mut i: usize = 0;
    while i < existing.len()
        invariant
            i <= existing@.len(),
            match found {
                Some(j) => j < i && existing@[j as int].original_name@ == name@ && forall|t: int|
                    j < t < i ==> (#[trigger] existing@[t]).original_name@ != name@,
                None => forall|t: int| 0 <= t < i ==> (#[trigger] existing@[t]).original_name@ != name@,
            },
        decreases existing@.len() - i,
    {
        if same_text(existing[i].original_name.as_str(), name) {
            found = Some(i);
        }
        i = i + 1;
    }
    found
}

fn is_entry_at(existing: &Vec<ExistingTool>, j: usize) -> (r: bool)
    requires
        j < existing@.len(),
    ensures
        r == is_entry(existing@, j as int),
{
    let n = existing.len();
    let mut t: usize = j + 1;
    while t < n
        invariant
            j < t <= existing@.len(),
            n == existing@.len(),
            forall|s: int| j < s < t ==> (#[trigger] existing@[s]).original_name@ != existing@[j as int].original_name@,
        decreases existing@.len() - t,
    {
        if same_text(existing[t].original_name.as_str(), existing[j].original_name.as_str()) {
            return false;
        }
        t = t + 1;
    }
    true
}

fn listed_before_at(listed: &Vec<String>, k: usize) -> (r: bool)
    requires
        k < listed@.len(),
    ensures
        r == listed_before(listed@, k as int),
{
    let mut l: usize = 0;
    while l < k
        invariant
            l <= k < listed@.len(),
            forall|s: int| 0 <= s < l ==> (#[trigger] listed@[s])@ != listed@[k as int]@,
        decreases k - l,
    {
        if same_text(listed[l].as_str(), listed[k].as_str()) {
            return true;
        }
        l = l + 1;
    }
    false
}

fn is_listed_name(listed: &Vec<String>, name: &str) -> (r: bool)
    ensures
        r == is_listed(listed@, name@),
{
    let mut l: usize = 0;
    while l < listed.len()
        invariant
            l <= listed@.len(),
            forall|s: int| 0 <= s < l ==> (#[trigger] listed@[s])@ != name@,
        decreases listed@.len() - l,
    {
        if same_text(listed[l].as_str(), name) {
            return true;
        }
        l = l + 1;
    }
    false
}

/// Matches the listed tools against the stored ones. Stored tools are found
/// by the name the server gave them (the last stored tool of a name is the
/// one found); each listed tool refreshes the stored tool of its name, once,
/// or is new; the stored tools that no listed tool names are switched off.
pub fn plan_tool_sync(listed: &Vec<String>, existing: &Vec<ExistingTool>) -> (r: ToolSyncPlan)
    ensures
        r.steps@.len() == listed@.len(),
        forall|k: int| 0 <= k < listed@.len() ==> step_fits(listed@, existing@, k, #[trigger] r.steps@[k]),
        forall|a: int, b: int| 0 <= a < b < r.disable@.len() ==> r.disable@[a] < r.disable@[b],
        forall|a: int| 0 <= a < r.disable@.len() ==> #[trigger] r.disable@[a] < existing@.len(),
        forall|j: int|
            #![trigger disabled(listed@, existing@, j)]
            #![trigger r.disable@.contains(j as usize)]
            0 <= j < existing@.len() ==> (disabled(listed@, existing@, j) <==> r.disable@.contains(j as usize)),
        r.removed == enabled_count(existing@, r.disable@),
{
    let mut steps: Vec<ToolSyncStep> = Vec::new();
    let mut k: usize = 0;
    while k < listed.len()
        invariant
            k <= listed@.len(),
            steps@.len() == k,
            forall|x: int| 0 <= x < k ==> step_fits(listed@, existing@, x, #[trigger] steps@[x]),
        decreases listed@.len() - k,
    {
        let step = if listed_before_at(listed, k) {
            ToolSyncStep::Insert
        } else {
            match entry_for(existing, listed[k].as_str()) {
                Some(j) => ToolSyncStep::Update(j),
                None => ToolSyncStep::Insert,
            }
        };
        steps.push(step);
        k = k + 1;
    }
    let mut disable: Vec<usize> = Vec::new();
    let mut removed: usize = 0;
    let mut j: usize = 0;
    while j < existing.len()
        invariant
            j <= existing@.len(),
            forall|a: int, b: int| 0 <= a < b < disable@.len() ==> disable@[a] < disable@[b],
            forall|a: int| 0 <= a < disable@.len() ==> #[trigger] disable@[a] < j,
            forall|t: int|
                #![trigger disabled(listed@, existing@, t)]
                #![trigger disable@.contains(t as usize)]
                0 <= t < j ==> (disabled(listed@, existing@, t) <==> disable@.contains(t as usize)),
            removed == enabled_count(existing@, disable@),
            removed <= disable@.len(),
            disable@.len() <= j,
        decreases existing@.len() - j,
    {
        if is_entry_at(existing, j) && !is_listed_name(listed, existing[j].original_name.as_str()) {
            let ghost d0 = disable@;
            disable.push(j);
            proof {
                assert(disable@.drop_last() =~= d0);
                assert forall|t: int| 0 <= t < j implies (#[trigger] disable@.contains(t as usize) <==> d0.contains(
                    t as usize,
                )) by {
                    if disable@.contains(t as usize) {
                        let x = choose|x: int| 0 <= x < disable@.len() && disable@[x] == t as usize;
                        if x < d0.len() {
                            assert(d0[x] == t as usize);
                        }
                    }
                    if d0.contains(t as usize) {
                        let x = choose|x: int| 0 <= x < d0.len() && d0[x] == t as usize;
                        assert(disable@[x] == t as usize);
                    }
                }
                assert(disable@[d0.len() as int] == j);
            }
            if existing[j].enabled {
                removed = removed + 1;
            }
        } else {
            proof {
                assert(!disable@.contains(j as usize));
            }
        }
        j = j + 1;
    }
    ToolSyncPlan { steps, disable, removed }
}

/// Listing a server's tools needs the user's OAuth token when the server is
/// reached over HTTP and its connection settings hold an "oauth" member.
pub fn sync_needs_oauth(over_http: bool, connection_config: &Json) -> (r: bool)
    ensures
        r == (over_http && connection_config@.field("oauth"@) is Some),
{
    over_http && connection_config.get("oauth").is_some()
}

/// A stored tool that some listed tool refreshes is never switched off.
pub proof fn law_refreshed_tool_stays_on(listed: Seq<String>, ex: Seq<ExistingTool>, k: int, j: usize)
    requires
        0 <= k < listed.len(),
        step_fits(listed, ex, k, ToolSyncStep::Update(j)),
    ensures
        !disabled(listed, ex, j as int),
{
    assert(listed[k]@ == ex[j as int].original_name@);
}

/// No stored tool is refreshed by two listed tools.
pub proof fn law_tool_refreshed_once(
    listed: Seq<String>,
    ex: Seq<ExistingTool>,
    k1: int,
    k2: int,
    j: usize,
)
    requires
        0 <= k1 < listed.len(),
        0 <= k2 < listed.len(),
        step_fits(listed, ex, k1, ToolSyncStep::Update(j)),
        step_fits(listed, ex, k2, ToolSyncStep::Update(j)),
    ensures
        k1 == k2,
{
    assert(listed[k1]@ == listed[k2]@);
    if k1 < k2 {
        assert(listed_before(listed, k2));
    } else if k2 < k1 {
        assert(listed_before(listed, k1));
    }
}

} // verus!
