//! The configuration of the service, and where it is read from.

use crate::decimal::{digits_of, push_digits};
use vstd::prelude::*;

verus! {

/// The run mode where none is given.
pub const DEFAULT_RUN_MODE: &'static str = "development";

/// The file of defaults. It must exist.
pub const DEFAULT_FILE: &'static str = "config/default";

/// The file of local overrides. It may be missing.
pub const LOCAL_FILE: &'static str = "config/local";

/// What the name of a run mode's file begins with.
pub const MODE_FILE_PREFIX: &'static str = "config/";

/// What parts host and port in an address.
pub const COLON: &'static str = ":";

/// The configuration of the service. The four settings of the exporter of
/// traces and metrics are optional: a service without them exports
/// nothing.
#[derive(Clone, Debug, PartialEq, Eq)]
pub struct Settings {
    pub host: String,
    pub port: u16,
    pub database_url: String,
    pub db_max_connections: u32,
    pub honeycomb_api_key: Option<String>,
    pub honeycomb_dataset: Option<String>,
    pub honeycomb_host: Option<String>,
    pub honeycomb_port: Option<String>,
}

/// One layer of the configuration.
#[derive(Clone, Debug, PartialEq, Eq)]
pub enum ConfigSource {
    /// A file, named without its extension.
    File { name: String, required: bool },
    /// The environment of the process.
    Environment,
}

/// What [`ConfigSource`] is in contracts.
pub enum ConfigSourceView {
    File { name: Seq<char>, required: bool },
    Environment,
}

impl View for ConfigSource {
    type V = ConfigSourceView;

    open spec fn view(&self) -> ConfigSourceView {
        match self {
            ConfigSource::File { name, required } => ConfigSourceView::File {
                name: name@,
                required: *required,
            },
            ConfigSource::Environment => ConfigSourceView::Environment,
        }
    }
}

/// The view of each layer of a list.
pub open spec fn source_views(sources: Seq<ConfigSource>) -> Seq<ConfigSourceView> {
    sources.map_values(|s: ConfigSource| s@)
}

/// The run mode in force: the one given, or the default.
pub open spec fn run_mode_or_default(run_mode: Option<Seq<char>>) -> Seq<char> {
    match run_mode {
        Some(mode) => mode,
        None => DEFAULT_RUN_MODE@,
    }
}

/// The layers of the configuration, lowest first: a later layer overrides an
/// earlier one. The defaults, the local overrides, the file of the run mode,
/// then the environment.
pub open spec fn layers(run_mode: Option<Seq<char>>) -> Seq<ConfigSourceView> {
    seq![
        ConfigSourceView::File { name: DEFAULT_FILE@, required: true },
        ConfigSourceView::File { name: LOCAL_FILE@, required: false },
        ConfigSourceView::File {
            name: MODE_FILE_PREFIX@ + run_mode_or_default(run_mode),
            required: false,
        },
        ConfigSourceView::Environment,
    ]
}

impl Settings {
    /// The layers to read the configuration from, lowest first. `run_mode`
    /// is the run mode that the environment names, if it names one.
    pub fn sources(run_mode: Option<String>) -> (sources: Vec<ConfigSource>)
        ensures
            source_views(sources@) == layers(
                match run_mode {
                    Some(mode) => Some(mode@),
                    None => None,
                },
            ),
    {
        let mut mode_file = String::from_str(MODE_FILE_PREFIX);
        match &run_mode {
            Some(mode) => mode_file.append(mode.as_str()),
            None => mode_file.append(DEFAULT_RUN_MODE),
        }
        let sources = vec![
            ConfigSource::File { name: String::from_str(DEFAULT_FILE), required: true },
            ConfigSource::File { name: String::from_str(LOCAL_FILE), required: false },
            ConfigSource::File { name: mode_file, required: false },
            ConfigSource::Environment,
        ];
        assert(source_views(sources@) =~= layers(
            match run_mode {
                Some(mode) => Some(mode@),
                None => None,
            },
        ));
        sources
    }

    /// The address to listen on: the host, a colon, the port.
    pub fn bind_address(&self) -> (address: String)
        ensures
            address@ == self.host@ + COLON@ + digits_of(self.port as nat),
    {
        let mut address = self.host.clone();
        address.append(COLON);
        push_digits(&mut address, self.port as u128);
        address
    }
}

} // verus!
