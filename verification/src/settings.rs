//! The settings of a run: where the addon list is and where addons are
//! unpacked.
//!
//! Each of the two comes from the caller, as an override, or else from the
//! persisted settings store. A setting that neither gives is missing, and the
//! run cannot start.

use vstd::prelude::*;
use vstd::string::StringExecFns;

verus! {

/// `config::Config`, the persisted settings store, taken as it is.
#[verifier::external_type_specification]
#[verifier::external_body]
pub struct ExSettingsStore(config::Config);

/// `config::ConfigError`, what a failed lookup in the store gives.
#[verifier::external_type_specification]
#[verifier::external_body]
pub struct ExSettingsError(config::ConfigError);

/// The texts that a settings store holds: each key under which
/// `config::Config::get_str` finds a value, with the text that it gives for
/// that value.
pub uninterp spec fn stored_texts(settings: config::Config) -> Map<Seq<char>, Seq<char>>;

/// `config::Config::get_str` looks a key up in the store. It succeeds exactly
/// for the keys of [`stored_texts`], and then gives the text held there. A
/// key with a `[` in it is left out: the subscript that it opens can make the
/// lookup panic.
pub assume_specification[ config::Config::get_str ](settings: &config::Config, key: &str) -> (found:
    Result<String, config::ConfigError>)
    requires
        !key@.contains('['),
    ensures
        found is Ok <==> stored_texts(*settings).contains_key(key@),
        found matches Ok(text) ==> text@ == stored_texts(*settings)[key@],
;

/// The two settings.
#[derive(Clone, Copy, Debug, PartialEq, Eq, Structural)]
pub enum ConfigKey {
    /// The path of the addon list.
    AddonListFile,
    /// The directory into which addons are unpacked.
    AddonDir,
}

impl ConfigKey {
    /// The key under which the setting is persisted.
    pub open spec fn spec_name(self) -> Seq<char> {
        match self {
            ConfigKey::AddonListFile => "addon_list_file"@,
            ConfigKey::AddonDir => "addon_dir"@,
        }
    }

    /// The key under which the setting is persisted.
    pub fn name(self) -> (name: &'static str)
        ensures
            name@ == self.spec_name(),
            !name@.contains('['),
    {
        proof {
            reveal_strlit("addon_list_file");
            reveal_strlit("addon_dir");
        }
        match self {
            ConfigKey::AddonListFile => "addon_list_file",
            ConfigKey::AddonDir => "addon_dir",
        }
    }

    /// Whether the setting has neither an override nor a persisted value.
    pub open spec fn is_missing(
        self,
        override_list: Option<Seq<char>>,
        override_dest: Option<Seq<char>>,
        persisted: Map<Seq<char>, Seq<char>>,
    ) -> bool {
        let given = match self {
            ConfigKey::AddonListFile => override_list,
            ConfigKey::AddonDir => override_dest,
        };
        given is None && !persisted.contains_key(self.spec_name())
    }
}

/// The settings of one run.
#[derive(Clone, Debug, PartialEq, Eq)]
pub struct ResolvedConfig {
    /// The path of the addon list.
    pub addon_list_path: String,
    /// The directory into which addons are unpacked.
    pub destination_dir: String,
}

/// The mathematical content of a [`ResolvedConfig`].
pub struct ResolvedConfigView {
    pub addon_list_path: Seq<char>,
    pub destination_dir: Seq<char>,
}

impl View for ResolvedConfig {
    type V = ResolvedConfigView;

    open spec fn view(&self) -> ResolvedConfigView {
        ResolvedConfigView {
            addon_list_path: self.addon_list_path@,
            destination_dir: self.destination_dir@,
        }
    }
}

impl ResolvedConfig {
    /// What a run needs of its settings before it starts: neither is empty.
    /// Settling the settings does not see to it: it goes by which values are
    /// given, not by what they hold.
    pub open spec fn usable(&self) -> bool {
        self.addon_list_path@.len() > 0 && self.destination_dir@.len() > 0
    }

    /// Whether neither setting is empty.
    pub fn is_usable(&self) -> (b: bool)
        ensures
            b == self.usable(),
    {
        !self.addon_list_path.as_str().is_empty() && !self.destination_dir.as_str().is_empty()
    }
}

/// The settings that neither an override nor the settings store gives.
#[derive(Clone, Debug, PartialEq, Eq)]
pub struct MissingConfiguration {
    /// The settings that are missing: at least one, the addon list first.
    pub keys: Vec<ConfigKey>,
    /// Where the settings store is kept, for the user to add the settings
    /// there.
    pub location: String,
}

/// The mathematical content of a [`MissingConfiguration`].
pub struct MissingConfigurationView {
    pub keys: Seq<ConfigKey>,
    pub location: Seq<char>,
}

impl View for MissingConfiguration {
    type V = MissingConfigurationView;

    open spec fn view(&self) -> MissingConfigurationView {
        MissingConfigurationView { keys: self.keys@, location: self.location@ }
    }
}

/// The value of one setting: the override where there is one, else the
/// persisted value, else none.
pub open spec fn chosen(given: Option<Seq<char>>, persisted: Option<Seq<char>>) -> Option<
    Seq<char>,
> {
    match given {
        Some(value) => Some(value),
        None => persisted,
    }
}

/// The keys of the settings that have no value, the addon list first.
pub open spec fn missing_keys(
    addon_list_path: Option<Seq<char>>,
    destination_dir: Option<Seq<char>>,
) -> Seq<ConfigKey> {
    let list = if addon_list_path is None {
        seq![ConfigKey::AddonListFile]
    } else {
        seq![]
    };
    let dest = if destination_dir is None {
        seq![ConfigKey::AddonDir]
    } else {
        seq![]
    };
    list + dest
}

/// The settings of a run, from the two overrides and the two persisted
/// values: each setting is its override or else its persisted value. Where a
/// setting has neither, there are no settings, and every such setting is
/// reported by its key, together with `location`.
pub open spec fn resolution_of(
    override_list: Option<Seq<char>>,
    override_dest: Option<Seq<char>>,
    persisted_list: Option<Seq<char>>,
    persisted_dest: Option<Seq<char>>,
    location: Seq<char>,
) -> Result<ResolvedConfigView, MissingConfigurationView> {
    let list = chosen(override_list, persisted_list);
    let dest = chosen(override_dest, persisted_dest);
    if list is Some && dest is Some {
        Ok(ResolvedConfigView { addon_list_path: list->0, destination_dir: dest->0 })
    } else {
        Err(MissingConfigurationView { keys: missing_keys(list, dest), location })
    }
}

/// The value persisted under `key`, if any.
pub open spec fn persisted_value(persisted: Map<Seq<char>, Seq<char>>, key: ConfigKey) -> Option<
    Seq<char>,
> {
    if persisted.contains_key(key.spec_name()) {
        Some(persisted[key.spec_name()])
    } else {
        None
    }
}

/// The settings of a run, from the two overrides and the persisted mapping.
pub open spec fn resolution(
    override_list: Option<Seq<char>>,
    override_dest: Option<Seq<char>>,
    persisted: Map<Seq<char>, Seq<char>>,
    location: Seq<char>,
) -> Result<ResolvedConfigView, MissingConfigurationView> {
    resolution_of(
        override_list,
        override_dest,
        persisted_value(persisted, ConfigKey::AddonListFile),
        persisted_value(persisted, ConfigKey::AddonDir),
        location,
    )
}

/// The mathematical content of what settling the settings returns.
pub open spec fn resolved_view(outcome: Result<ResolvedConfig, MissingConfiguration>) -> Result<
    ResolvedConfigView,
    MissingConfigurationView,
> {
    match outcome {
        Ok(config) => Ok(config@),
        Err(missing) => Err(missing@),
    }
}

/// Settles the two settings from values already looked up: `persisted_list`
/// and `persisted_dest` are what the settings store holds for the two keys.
/// An override wins over the persisted value. Every setting that has neither
/// is reported as missing, together with `location`.
pub fn resolve_values(
    override_list: Option<String>,
    override_dest: Option<String>,
    persisted_list: Option<String>,
    persisted_dest: Option<String>,
    location: &str,
) -> (outcome: Result<ResolvedConfig, MissingConfiguration>)
    ensures
        resolved_view(outcome) == resolution_of(
            override_list.deep_view(),
            override_dest.deep_view(),
            persisted_list.deep_view(),
            persisted_dest.deep_view(),
            location@,
        ),
{
    let list = match override_list {
        Some(value) => Some(value),
        None => persisted_list,
    };
    let dest = match override_dest {
        Some(value) => Some(value),
        None => persisted_dest,
    };
    match (list, dest) {
        (Some(addon_list_path), Some(destination_dir)) => Ok(
            ResolvedConfig { addon_list_path, destination_dir },
        ),
        (list, dest) => {
            let mut keys: Vec<ConfigKey> = Vec::new();
            if list.is_none() {
                keys.push(ConfigKey::AddonListFile);
            }
            if dest.is_none() {
                keys.push(ConfigKey::AddonDir);
            }
            assert(keys@ == missing_keys(list.deep_view(), dest.deep_view()));
            Err(MissingConfiguration { keys, location: String::from_str(location) })
        },
    }
}

/// What the settings store holds under `key`, if anything.
pub fn lookup(persisted: &config::Config, key: ConfigKey) -> (found: Option<String>)
    ensures
        found.deep_view() == persisted_value(stored_texts(*persisted), key),
{
    match persisted.get_str(key.name()) {
        Ok(text) => Some(text),
        Err(_) => None,
    }
}

/// Settles the two settings of a run, see [`resolution`].
///
/// An override wins over what `persisted` holds under the setting's key.
/// Without an override the persisted value is taken as it is. A setting with
/// neither is missing: the call then fails, and the failure names every
/// missing setting by its key, and `location`, the place of the settings
/// store.
pub fn resolve(
    override_list: Option<String>,
    override_dest: Option<String>,
    persisted: &config::Config,
    location: &str,
) -> (outcome: Result<ResolvedConfig, MissingConfiguration>)
    ensures
        resolved_view(outcome) == resolution(
            override_list.deep_view(),
            override_dest.deep_view(),
            stored_texts(*persisted),
            location@,
        ),
        override_list is Some && override_dest is Some ==> outcome is Ok && outcome->Ok_0@ == (
        ResolvedConfigView {
            addon_list_path: override_list->0@,
            destination_dir: override_dest->0@,
        }),
        override_list is None && override_dest is None && stored_texts(*persisted).contains_key(
            ConfigKey::AddonListFile.spec_name(),
        ) && stored_texts(*persisted).contains_key(ConfigKey::AddonDir.spec_name())
            ==> outcome is Ok && outcome->Ok_0@ == (ResolvedConfigView {
            addon_list_path: stored_texts(*persisted)[ConfigKey::AddonListFile.spec_name()],
            destination_dir: stored_texts(*persisted)[ConfigKey::AddonDir.spec_name()],
        }),
        forall|key: ConfigKey| #[trigger]
            key.is_missing(
                override_list.deep_view(),
                override_dest.deep_view(),
                stored_texts(*persisted),
            ) ==> outcome is Err && outcome->Err_0.keys@.contains(key) && outcome->Err_0.location@
                == location@,
        outcome is Err ==> outcome->Err_0.keys@.len() > 0 && forall|key: ConfigKey| #[trigger]
            outcome->Err_0.keys@.contains(key) ==> key.is_missing(
                override_list.deep_view(),
                override_dest.deep_view(),
                stored_texts(*persisted),
            ),
{
    let persisted_list = lookup(persisted, ConfigKey::AddonListFile);
    let persisted_dest = lookup(persisted, ConfigKey::AddonDir);
    let outcome = resolve_values(
        override_list,
        override_dest,
        persisted_list,
        persisted_dest,
        location,
    );
    proof {
        let list = chosen(override_list.deep_view(), persisted_list.deep_view());
        let dest = chosen(override_dest.deep_view(), persisted_dest.deep_view());
        let keys = missing_keys(list, dest);
        if list is None {
            assert(keys[0] == ConfigKey::AddonListFile);
        }
        if dest is None {
            assert(keys[keys.len() - 1] == ConfigKey::AddonDir);
        }
    }
    outcome
}

} // verus!
