//! The declarative configuration a run consumes, and the parser shell that
//! carries it.
//!
//! Reading the configuration file and decoding its TOML are outside
//! collaborators: the caller reads and decodes, then stores the structured
//! result here. The types hold plain values only — a template location is
//! the path's text, and the named sections are association lists in file
//! order.

use vstd::prelude::*;

verus! {

/// A prompt-session section of the configuration.
pub struct SessionConfig {
    pub prompt: String,
    pub level: u8,
}

/// A command section of the configuration.
pub struct CommandConfig {
    pub template_ref: Option<String>,
    pub level: Option<u8>,
}

/// Where an auxiliary template's source is found: the path, as text.
pub struct TemplateConfig {
    pub template: String,
}

/// The names of an association list are pairwise distinct — the invariant a
/// configuration table carries, kept when its entries are handed over as a
/// list.
pub open spec fn distinct_names<T>(entries: Seq<(String, T)>) -> bool {
    forall|i: int, j: int| 0 <= i < j < entries.len() ==> entries[i].0@ != entries[j].0@
}

/// How many routes to generate, and the auxiliary templates registered under
/// `routes.template.<name>`.
pub struct RoutesConfig {
    pub count: u32,
    pub template: Vec<(String, TemplateConfig)>,
}

impl RoutesConfig {
    /// Well-formed as decoded from a configuration file: template names,
    /// being keys of one table, never repeat.
    pub open spec fn wf(self) -> bool {
        distinct_names(self.template@)
    }
}

/// How many interfaces to generate, the inline source of the interface name
/// template, and the auxiliary templates registered under
/// `interfaces.template.<name>`.
pub struct InterfacesConfig {
    pub count: u32,
    pub name_template: String,
    pub template: Vec<(String, TemplateConfig)>,
}

impl InterfacesConfig {
    /// Well-formed as decoded from a configuration file: template names,
    /// being keys of one table, never repeat.
    pub open spec fn wf(self) -> bool {
        distinct_names(self.template@)
    }
}

/// The whole configuration of one generation run.
pub struct Config {
    pub routes: RoutesConfig,
    pub interfaces: InterfacesConfig,
    pub session: Vec<(String, SessionConfig)>,
    pub command: Vec<(String, CommandConfig)>,
}

impl Config {
    /// Well-formed as decoded from a configuration file: every named
    /// section list — templates, sessions, commands — has pairwise distinct
    /// names, as the keys of the file's tables are.
    pub open spec fn wf(self) -> bool {
        self.routes.wf() && self.interfaces.wf() && distinct_names(self.session@)
            && distinct_names(self.command@)
    }
}

/// Carries the path of the configuration file and, once the caller has read
/// and decoded that file, the structured configuration itself.
pub struct ConfigParser {
    pub path: String,
    pub config: Option<Config>,
}

/// The configuration file looked for when the caller names none.
pub fn default_config_path() -> (r: &'static str)
    ensures
        r@ == "skinner.config.toml"@,
{
    "skinner.config.toml"
}

impl ConfigParser {
    /// A parser for the configuration file at `path`, with nothing parsed
    /// yet.
    pub fn new(path: String) -> (r: Self)
        ensures
            r.path == path,
            r.config is None,
    {
        ConfigParser { path, config: None }
    }

    /// Stores the decoded configuration; the caller reads and decodes the
    /// file at `self.path` and hands the result in.
    pub fn store(&mut self, config: Config)
        ensures
            final(self).path == old(self).path,
            final(self).config == Some(config),
    {
        self.config = Some(config);
    }

    /// The stored configuration, if one was stored.
    pub fn config(&self) -> (r: Option<&Config>)
        ensures
            r is Some <==> self.config is Some,
            r matches Some(c) ==> self.config == Some(*c),
    {
        self.config.as_ref()
    }
}

impl Default for ConfigParser {
    /// A parser for the default configuration file.
    fn default() -> (r: Self)
        ensures
            r.path@ == "skinner.config.toml"@,
            r.config is None,
    {
        ConfigParser::new(default_config_path().to_owned())
    }
}

} // verus!
