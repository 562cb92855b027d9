//! AI engines: which discovered providers get an engine record, the state a
//! new record starts in, and how an engine's plugin is prepared after an
//! update.
use vstd::prelude::*;

use crate::text::same_text;

verus! {

/// Whether an engine's API key was checked against its provider.
#[derive(Debug, Clone, Copy, PartialEq, Eq, Structural)]
pub enum ApiKeyStatus {
    NotConfigured,
    NotValidated,
    Valid,
    Invalid,
}

/// Some text of `keys` before position `end` equals `key`.
pub open spec fn key_among(keys: Seq<String>, end: int, key: Seq<char>) -> bool {
    exists|i: int| 0 <= i < end && (#[trigger] keys[i])@ == key
}

/// The provider at `k` gets a new engine record: no record has its key yet,
/// and no earlier provider has the same key.
pub open spec fn gets_record(existing: Seq<String>, providers: Seq<String>, k: int) -> bool {
    &&& 0 <= k < providers.len()
    &&& !key_among(existing, existing.len() as int, providers[k]@)
    &&& !key_among(providers, k, providers[k]@)
}

fn key_among_exec(keys: &Vec<String>, end: usize, key: &str) -> (r: bool)
    requires
        end <= keys@.len(),
    ensures
        r == key_among(keys@, end as int, key@),
{
    let mut i: usize = 0;
    while i < end
        invariant
            i <= end <= keys@.len(),
            forall|t: int| 0 <= t < i ==> (#[trigger] keys@[t])@ != key@,
        decreases end - i,
    {
        if same_text(keys[i].as_str(), key) {
            return true;
        }
        i = i + 1;
    }
    false
}

/// The positions of the discovered providers that get a new engine record,
/// ascending: those whose key no record and no earlier provider has.
pub fn engines_to_add(existing_keys: &Vec<String>, provider_keys: &Vec<String>) -> (r: Vec<usize>)
    ensures
        forall|a: int, b: int| 0 <= a < b < r@.len() ==> r@[a] < r@[b],
        forall|a: int| 0 <= a < r@.len() ==> #[trigger] r@[a] < provider_keys@.len(),
        forall|k: int|
            #![trigger gets_record(existing_keys@, provider_keys@, k)]
            #![trigger r@.contains(k as usize)]
            0 <= k < provider_keys@.len() ==> (gets_record(existing_keys@, provider_keys@, k) <==> r@.contains(
                k as usize,
            )),
{
    let mut out: Vec<usize> = Vec::new();
    let mut k: usize = 0;
    while k < provider_keys.len()
        invariant
            k <= provider_keys@.len(),
            forall|a: int, b: int| 0 <= a < b < out@.len() ==> out@[a] < out@[b],
            forall|a: int| 0 <= a < out@.len() ==> #[trigger] out@[a] < k,
            forall|t: int|
                #![trigger gets_record(existing_keys@, provider_keys@, t)]
                #![trigger out@.contains(t as usize)]
                0 <= t < k ==> (gets_record(existing_keys@, provider_keys@, t) <==> out@.contains(t as usize)),
        decreases provider_keys@.len() - k,
    {
        let key = provider_keys[k].as_str();
        if !key_among_exec(existing_keys, existing_keys.len(), key) && !key_among_exec(provider_keys, k, key) {
            let ghost o0 = out@;
            out.push(k);
            proof {
                assert forall|t: int| 0 <= t < k implies (#[trigger] out@.contains(t as usize) <==> o0.contains(
                    t as usize,
                )) by {
                    if out@.contains(t as usize) {
                        let x = choose|x: int| 0 <= x < out@.len() && out@[x] == t as usize;
                        if x < o0.len() {
                            assert(o0[x] == t as usize);
                        }
                    }
                    if o0.contains(t as usize) {
                        let x = choose|x: int| 0 <= x < o0.len() && o0[x] == t as usize;
                        assert(out@[x] == t as usize);
                    }
                }
                assert(out@[o0.len() as int] == k);
            }
        } else {
            proof {
                assert(!out@.contains(k as usize));
            }
        }
        k = k + 1;
    }
    out
}

/// The default model of a new engine record, until one is chosen.
pub const UNSET_DEFAULT_MODEL: &'static str = "<empty>";

/// How a new engine record starts.
#[derive(Debug, Clone, Copy, PartialEq, Eq, Structural)]
pub struct NewEngineState {
    pub is_enabled: bool,
    pub api_key_status: ApiKeyStatus,
}

/// A new engine is switched on exactly when an API key is configured for
/// it; its key is then not yet validated, else not configured.
pub fn new_engine_state(has_api_key: bool) -> (r: NewEngineState)
    ensures
        r.is_enabled == has_api_key,
        r.api_key_status == if has_api_key {
            ApiKeyStatus::NotValidated
        } else {
            ApiKeyStatus::NotConfigured
        },
{
    NewEngineState {
        is_enabled: has_api_key,
        api_key_status: if has_api_key {
            ApiKeyStatus::NotValidated
        } else {
            ApiKeyStatus::NotConfigured
        },
    }
}

/// The request field an engine update is refused for.
#[derive(Debug, Clone, Copy, PartialEq, Eq, Structural)]
pub enum EngineField {
    PluginConfig,
    PluginConfigManifestId,
}

/// Checks a new plugin configuration for an engine: only an engine that has
/// a plugin configuration can be given another; the new one must parse
/// (`manifest_id` is its manifest's id, `None` when it does not parse), and
/// its manifest must name the engine.
pub fn check_plugin_config_update(engine_has_plugin_config: bool, manifest_id: Option<&str>, engine_key: &str) -> (r:
    Result<(), EngineField>)
    ensures
        !engine_has_plugin_config ==> r == Err::<(), EngineField>(EngineField::PluginConfig),
        engine_has_plugin_config && manifest_id is None ==> r == Err::<(), EngineField>(EngineField::PluginConfig),
        engine_has_plugin_config && manifest_id is Some ==> r == (if manifest_id.unwrap()@ == engine_key@ {
            Ok::<(), EngineField>(())
        } else {
            Err(EngineField::PluginConfigManifestId)
        }),
{
    if !engine_has_plugin_config {
        return Err(EngineField::PluginConfig);
    }
    match manifest_id {
        None => Err(EngineField::PluginConfig),
        Some(id) => if same_text(id, engine_key) {
            Ok(())
        } else {
            Err(EngineField::PluginConfigManifestId)
        },
    }
}

/// The key a disabled plugin is compiled with when it has none, so that
/// its credentials can be checked.
pub const VALIDATION_PLACEHOLDER: &'static str = "validation-placeholder";

/// How an engine's provider is prepared after an update.
pub enum ProviderPreparation {
    /// An enabled engine: built from its stored settings.
    Build,
    /// A disabled engine with a plugin: compiled with this key.
    Compile(Option<String>),
    /// Nothing to prepare.
    Skip,
}

/// Enabled engines are built; a disabled engine with a plugin is compiled
/// with its own key, else with the placeholder when its manifest asks for
/// credentials; anything else is left alone.
pub fn provider_preparation(
    is_enabled: bool,
    has_plugin_config: bool,
    api_key: Option<String>,
    manifest_has_credentials: bool,
) -> (r: ProviderPreparation)
    ensures
        is_enabled ==> r is Build,
        !is_enabled && !has_plugin_config ==> r is Skip,
        !is_enabled && has_plugin_config ==> (r matches ProviderPreparation::Compile(k) && k.deep_view() == match api_key {
            Some(a) => Some(a@),
            None => if manifest_has_credentials {
                Some(VALIDATION_PLACEHOLDER@)
            } else {
                None
            },
        }),
{
    if is_enabled {
        ProviderPreparation::Build
    } else if has_plugin_config {
        let key = match api_key {
            Some(a) => Some(a),
            None => if manifest_has_credentials {
                Some(VALIDATION_PLACEHOLDER.to_owned())
            } else {
                None
            },
        };
        ProviderPreparation::Compile(key)
    } else {
        ProviderPreparation::Skip
    }
}

} // verus!
