//! Names and locations from which a server's configuration is assembled.
//!
//! A component's configuration comes from three sources, merged in this order,
//! later ones overriding earlier ones key by key: a system-wide file, an
//! override file, and every file matched by a drop-in glob pattern. Two
//! environment variables, named after the component, may relocate the last two.
use vstd::prelude::*;

verus! {

/// Each `-` of `s` turned into `_`, every other character kept.
pub open spec fn dashes_to_underscores(s: Seq<char>) -> Seq<char> {
    Seq::new(s.len(), |i: int| if s[i] == '-' { '_' } else { s[i] })
}

/// What `str::to_uppercase` makes of a string: the Unicode upper-case mapping
/// of each of its characters, concatenated.
pub uninterp spec fn upper_of(s: Seq<char>) -> Seq<char>;

/// Relies on `str::replace` with a one-character pattern: every occurrence of
/// `-` is replaced by `_` and nothing else changes.
#[verifier::external_body]
fn replace_dashes(s: &str) -> (r: String)
    ensures
        r@ == dashes_to_underscores(s@),
{
    s.replace("-", "_")
}

/// Relies on `str::to_uppercase`: the result depends on the characters alone.
#[verifier::external_body]
fn uppercase(s: &str) -> (r: String)
    ensures
        r@ == upper_of(s@),
{
    s.to_uppercase()
}

/// The prefix of a component's environment variables.
pub open spec fn env_prefix(component: Seq<char>) -> Seq<char> {
    upper_of(dashes_to_underscores(component))
}

/// The variable that relocates a component's override file.
pub open spec fn conf_env_name(component: Seq<char>) -> Seq<char> {
    env_prefix(component) + "_CONF"@
}

/// The variable that relocates a component's drop-in glob pattern.
pub open spec fn conf_dir_env_name(component: Seq<char>) -> Seq<char> {
    env_prefix(component) + "_CONF_DIR"@
}

/// The component name with `-` replaced by `_`, upper-cased.
pub fn component_env_prefix(component: &str) -> (r: String)
    ensures
        r@ == env_prefix(component@),
{
    let replaced = replace_dashes(component);
    uppercase(replaced.as_str())
}

/// The name of the environment variable that relocates the override file:
/// `<PREFIX>_CONF`.
pub fn format_conf_env(component: &str) -> (r: String)
    ensures
        r@ == conf_env_name(component@),
{
    component_env_prefix(component).concat("_CONF")
}

/// The name of the environment variable that relocates the drop-in glob
/// pattern: `<PREFIX>_CONF_DIR`.
pub fn format_conf_dir_env(component: &str) -> (r: String)
    ensures
        r@ == conf_dir_env_name(component@),
{
    component_env_prefix(component).concat("_CONF_DIR")
}

/// The system-wide file of a component.
pub open spec fn system_conf_path(component: Seq<char>) -> Seq<char> {
    "/usr/share/fdo/"@ + component + ".yml"@
}

/// The override file of a component when its variable is not set.
pub open spec fn default_conf_path(component: Seq<char>) -> Seq<char> {
    "/etc/fdo/"@ + component + ".yml"@
}

/// The drop-in glob pattern of a component when its variable is not set.
pub open spec fn default_conf_dir_pattern(component: Seq<char>) -> Seq<char> {
    "/etc/fdo/"@ + component + ".conf.d/*.yml"@
}

/// The value of an environment variable if it was set, else the fallback.
pub open spec fn env_or(value: Option<String>, fallback: Seq<char>) -> Seq<char> {
    match value {
        Some(v) => v@,
        None => fallback,
    }
}

/// Where a component's configuration is looked for.
#[derive(Debug)]
pub struct ConfigLocations {
    /// The system-wide file, which may be missing.
    pub system_file: String,
    /// The override file, which may be missing.
    pub conf_file: String,
    /// The glob pattern of the drop-in files.
    pub conf_dir_pattern: String,
}

/// The locations of a component's configuration, given the values of its two
/// environment variables (`None` where a variable is unset or not valid text).
pub fn config_locations(
    component: &str,
    conf_env: Option<String>,
    conf_dir_env: Option<String>,
) -> (r: ConfigLocations)
    ensures
        r.system_file@ == system_conf_path(component@),
        r.conf_file@ == env_or(conf_env, default_conf_path(component@)),
        r.conf_dir_pattern@ == env_or(conf_dir_env, default_conf_dir_pattern(component@)),
{
    let system_file = String::from_str("/usr/share/fdo/").concat(component).concat(".yml");
    let conf_file = match conf_env {
        Some(p) => p,
        None => String::from_str("/etc/fdo/").concat(component).concat(".yml"),
    };
    let conf_dir_pattern = match conf_dir_env {
        Some(p) => p,
        None => String::from_str("/etc/fdo/").concat(component).concat(".conf.d/*.yml"),
    };
    ConfigLocations { system_file, conf_file, conf_dir_pattern }
}

/// The stage of the assembly a configuration file belongs to.
#[derive(Clone, Copy, Debug, PartialEq, Eq, Structural)]
pub enum ConfigStage {
    System,
    Override,
    DropIn,
}

impl ConfigStage {
    /// What was being loaded, for an error raised while merging the stage.
    pub fn context(&self) -> (r: &'static str)
        ensures
            r@ == stage_context(*self),
    {
        match self {
            ConfigStage::System => "Loading configuration file from /usr/share/fdo",
            ConfigStage::Override => "Loading configuration file from /etc/fdo",
            ConfigStage::DropIn => "Loading configuration files from conf.d",
        }
    }
}

/// The error context of each stage.
pub open spec fn stage_context(stage: ConfigStage) -> Seq<char> {
    match stage {
        ConfigStage::System => "Loading configuration file from /usr/share/fdo"@,
        ConfigStage::Override => "Loading configuration file from /etc/fdo"@,
        ConfigStage::DropIn => "Loading configuration files from conf.d"@,
    }
}

/// One file to merge into a configuration.
#[derive(Debug)]
pub struct ConfigSource {
    pub path: String,
    /// Whether a missing file is an error.
    pub required: bool,
    pub stage: ConfigStage,
}

/// The files to merge, lowest precedence first: the system file, the override
/// file, then each drop-in file in the order the glob expansion found them.
/// The first two may be missing; a drop-in file was found, so it must load.
pub fn config_sources(locations: ConfigLocations, drop_ins: &Vec<String>) -> (r: Vec<ConfigSource>)
    requires
        drop_ins@.len() + 2 <= usize::MAX,
    ensures
        r@.len() == drop_ins@.len() + 2,
        r@[0].path@ == locations.system_file@,
        !r@[0].required,
        r@[0].stage == ConfigStage::System,
        r@[1].path@ == locations.conf_file@,
        !r@[1].required,
        r@[1].stage == ConfigStage::Override,
        forall|i: int|
            0 <= i < drop_ins@.len() ==> (#[trigger] r@[i + 2]).path@ == drop_ins@[i]@
                && r@[i + 2].required && r@[i + 2].stage == ConfigStage::DropIn,
{
    let mut r: Vec<ConfigSource> = Vec::new();
    r.push(ConfigSource { path: locations.system_file, required: false, stage: ConfigStage::System });
    r.push(ConfigSource { path: locations.conf_file, required: false, stage: ConfigStage::Override });
    let mut i: usize = 0;
    while i < drop_ins.len()
        invariant
            i <= drop_ins@.len(),
            r@.len() == i + 2,
            r@[0].path@ == locations.system_file@,
            !r@[0].required,
            r@[0].stage == ConfigStage::System,
            r@[1].path@ == locations.conf_file@,
            !r@[1].required,
            r@[1].stage == ConfigStage::Override,
            forall|j: int|
                0 <= j < i ==> (#[trigger] r@[j + 2]).path@ == drop_ins@[j]@
                    && r@[j + 2].required && r@[j + 2].stage == ConfigStage::DropIn,
        decreases drop_ins@.len() - i,
    {
        r.push(ConfigSource { path: drop_ins[i].clone(), required: true, stage: ConfigStage::DropIn });
        i += 1;
    }
    r
}

} // verus!
