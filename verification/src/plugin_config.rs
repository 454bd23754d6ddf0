//! Plugin run configuration: where the compiled plugin module lives, which
//! directory is exposed inside its sandbox, and where its lint definitions
//! come from (local files and remote sources).

use vstd::prelude::*;
use crate::lint_data::{ConfigError, ConfigErrorModel};

verus! {

/// Mathematical model of a [`CliPluginConfig`].
pub struct CliPluginConfigModel {
    pub path: Option<Seq<char>>,
    pub url: Option<Seq<char>>,
    pub directory: Option<Seq<char>>,
    pub lints_paths: Option<Seq<Seq<char>>>,
    pub urls: Option<Seq<Seq<char>>>,
}

/// The single-plugin run configuration as written in the configuration file.
pub struct CliPluginConfig {
    /// Path to the plugin module.
    pub path: Option<String>,
    /// Url to the plugin module.
    pub url: Option<String>,
    /// Directory containing the files to be linted; the working directory
    /// when absent.
    pub directory: Option<String>,
    /// Paths to the lint definition files.
    pub lints_paths: Option<Vec<String>>,
    /// Urls of remote lint definition sources.
    pub urls: Option<Vec<String>>,
}

impl DeepView for CliPluginConfig {
    type V = CliPluginConfigModel;

    open spec fn deep_view(&self) -> CliPluginConfigModel {
        CliPluginConfigModel {
            path: self.path.deep_view(),
            url: self.url.deep_view(),
            directory: self.directory.deep_view(),
            lints_paths: self.lints_paths.deep_view(),
            urls: self.urls.deep_view(),
        }
    }
}

/// Mathematical model of a [`CliComparePluginConfig`].
pub struct CliComparePluginConfigModel {
    pub path: Option<Seq<char>>,
    pub url: Option<Seq<char>>,
    pub directory: Option<Seq<char>>,
}

/// One side of a comparison run: where its plugin lives and which directory
/// it lints.
pub struct CliComparePluginConfig {
    /// Path to the plugin module.
    pub path: Option<String>,
    /// Url to the plugin module.
    pub url: Option<String>,
    /// Directory containing the files to be linted; the working directory
    /// when absent.
    pub directory: Option<String>,
}

impl DeepView for CliComparePluginConfig {
    type V = CliComparePluginConfigModel;

    open spec fn deep_view(&self) -> CliComparePluginConfigModel {
        CliComparePluginConfigModel {
            path: self.path.deep_view(),
            url: self.url.deep_view(),
            directory: self.directory.deep_view(),
        }
    }
}

/// Mathematical model of a [`ComparePluginConfig`].
pub struct ComparePluginConfigModel {
    pub main: CliComparePluginConfigModel,
    pub secondary: CliComparePluginConfigModel,
    pub lints_paths: Option<Seq<Seq<char>>>,
    pub urls: Option<Seq<Seq<char>>>,
}

/// The comparison run configuration: two independent plugin configurations
/// and the shared lint definition sources.
pub struct ComparePluginConfig {
    pub main: CliComparePluginConfig,
    pub secondary: CliComparePluginConfig,
    /// Paths to the lint definition files.
    pub lints_paths: Option<Vec<String>>,
    /// Urls of remote lint definition sources.
    pub urls: Option<Vec<String>>,
}

impl DeepView for ComparePluginConfig {
    type V = ComparePluginConfigModel;

    open spec fn deep_view(&self) -> ComparePluginConfigModel {
        ComparePluginConfigModel {
            main: self.main.deep_view(),
            secondary: self.secondary.deep_view(),
            lints_paths: self.lints_paths.deep_view(),
            urls: self.urls.deep_view(),
        }
    }
}

/// Mathematical model of a [`PluginLocation`].
pub enum PluginLocationModel {
    Path(Seq<char>),
    Url(Seq<char>),
}

/// Where a plugin module is found: a file path or a url.
pub enum PluginLocation {
    Path(String),
    Url(String),
}

impl DeepView for PluginLocation {
    type V = PluginLocationModel;

    open spec fn deep_view(&self) -> PluginLocationModel {
        match self {
            PluginLocation::Path(p) => PluginLocationModel::Path(p@),
            PluginLocation::Url(u) => PluginLocationModel::Url(u@),
        }
    }
}

/// Mathematical model of a [`PluginData`].
pub struct PluginDataModel {
    pub plugin: PluginLocationModel,
    pub directory: Seq<char>,
    pub lints_paths: Seq<Seq<char>>,
    pub urls: Seq<Seq<char>>,
}

/// A resolved plugin run: the module's location, the directory to expose in
/// its sandbox, and its lint definition sources.
pub struct PluginData {
    pub plugin: PluginLocation,
    pub directory: String,
    pub lints_paths: Vec<String>,
    pub urls: Vec<String>,
}

impl DeepView for PluginData {
    type V = PluginDataModel;

    open spec fn deep_view(&self) -> PluginDataModel {
        PluginDataModel {
            plugin: self.plugin.deep_view(),
            directory: self.directory@,
            lints_paths: self.lints_paths.deep_view(),
            urls: self.urls.deep_view(),
        }
    }
}

/// The location a configuration names: the path when one is given, else the
/// url when one is given.
pub open spec fn location_of(path: Option<Seq<char>>, url: Option<Seq<char>>) -> PluginLocationModel {
    match path {
        Some(p) => PluginLocationModel::Path(p),
        None => PluginLocationModel::Url(url.unwrap()),
    }
}

impl PluginData {
    /// Assemble a resolved plugin run from its parts.
    pub fn new(
        plugin: PluginLocation,
        directory: String,
        lints_paths: Vec<String>,
        urls: Vec<String>,
    ) -> (r: PluginData)
        ensures
            r.deep_view() == (PluginDataModel {
                plugin: plugin.deep_view(),
                directory: directory@,
                lints_paths: lints_paths.deep_view(),
                urls: urls.deep_view(),
            }),
    {
        PluginData { plugin, directory, lints_paths, urls }
    }

    /// Resolve a single-plugin configuration. The plugin must be named by a
    /// path or by a url (the path wins when both are given); the directory
    /// falls back to the given default, and absent definition sources mean
    /// none.
    pub fn from_cli_plugin_config(cli_plugin_config: CliPluginConfig, default_directory: String) -> (r:
        Result<PluginData, ConfigError>)
        ensures
            r is Ok <==> (cli_plugin_config.deep_view().path is Some
                || cli_plugin_config.deep_view().url is Some),
            r matches Ok(data) ==> data.deep_view() == (PluginDataModel {
                plugin: location_of(
                    cli_plugin_config.deep_view().path,
                    cli_plugin_config.deep_view().url,
                ),
                directory: match cli_plugin_config.deep_view().directory {
                    Some(d) => d,
                    None => default_directory@,
                },
                lints_paths: match cli_plugin_config.deep_view().lints_paths {
                    Some(ps) => ps,
                    None => Seq::empty(),
                },
                urls: match cli_plugin_config.deep_view().urls {
                    Some(us) => us,
                    None => Seq::empty(),
                },
            }),
            r is Err ==> (r matches Err(e) && e.deep_view() == ConfigErrorModel::NoPluginSource),
    {
        let plugin = if let Some(path) = cli_plugin_config.path {
            PluginLocation::Path(path)
        } else if let Some(url) = cli_plugin_config.url {
            PluginLocation::Url(url)
        } else {
            return Err(ConfigError::NoPluginSource);
        };
        let directory = match cli_plugin_config.directory {
            Some(d) => d,
            None => default_directory,
        };
        let lints_paths = match cli_plugin_config.lints_paths {
            Some(ps) => ps,
            None => Vec::new(),
        };
        let urls = match cli_plugin_config.urls {
            Some(us) => us,
            None => Vec::new(),
        };
        proof {
            assert(lints_paths.deep_view() =~= (match cli_plugin_config.deep_view().lints_paths {
                Some(ps) => ps,
                None => Seq::empty(),
            }));
            assert(urls.deep_view() =~= (match cli_plugin_config.deep_view().urls {
                Some(us) => us,
                None => Seq::empty(),
            }));
        }
        Ok(Self::new(plugin, directory, lints_paths, urls))
    }

    /// Resolve one side of a comparison run: as `from_cli_plugin_config`,
    /// with no definition sources of its own (a comparison run's sources are
    /// shared).
    pub fn from_cli_compare_plugin_config(
        cli_plugin_config: CliComparePluginConfig,
        default_directory: String,
    ) -> (r: Result<PluginData, ConfigError>)
        ensures
            r is Ok <==> (cli_plugin_config.deep_view().path is Some
                || cli_plugin_config.deep_view().url is Some),
            r matches Ok(data) ==> data.deep_view() == (PluginDataModel {
                plugin: location_of(
                    cli_plugin_config.deep_view().path,
                    cli_plugin_config.deep_view().url,
                ),
                directory: match cli_plugin_config.deep_view().directory {
                    Some(d) => d,
                    None => default_directory@,
                },
                lints_paths: Seq::empty(),
                urls: Seq::empty(),
            }),
            r is Err ==> (r matches Err(e) && e.deep_view() == ConfigErrorModel::NoPluginSource),
    {
        let plugin = if let Some(path) = cli_plugin_config.path {
            PluginLocation::Path(path)
        } else if let Some(url) = cli_plugin_config.url {
            PluginLocation::Url(url)
        } else {
            return Err(ConfigError::NoPluginSource);
        };
        let directory = match cli_plugin_config.directory {
            Some(d) => d,
            None => default_directory,
        };
        let lints_paths: Vec<String> = Vec::new();
        let urls: Vec<String> = Vec::new();
        proof {
            assert(lints_paths.deep_view() =~= Seq::<Seq<char>>::empty());
            assert(urls.deep_view() =~= Seq::<Seq<char>>::empty());
        }
        Ok(Self::new(plugin, directory, lints_paths, urls))
    }
}

/// Mathematical model of a [`ComparePluginData`].
pub struct ComparePluginDataModel {
    pub main: PluginDataModel,
    pub secondary: PluginDataModel,
}

/// The two resolved sides of a comparison run.
pub struct ComparePluginData {
    pub main: PluginData,
    pub secondary: PluginData,
}

impl DeepView for ComparePluginData {
    type V = ComparePluginDataModel;

    open spec fn deep_view(&self) -> ComparePluginDataModel {
        ComparePluginDataModel { main: self.main.deep_view(), secondary: self.secondary.deep_view() }
    }
}

impl ComparePluginData {
    /// Resolve both sides of a comparison run; either side without a plugin
    /// path or url rejects the configuration.
    pub fn from_compare_cli_plugin_config(config: ComparePluginConfig, default_directory: String) -> (r:
        Result<ComparePluginData, ConfigError>)
        ensures
            r is Ok <==> ((config.deep_view().main.path is Some || config.deep_view().main.url
                is Some) && (config.deep_view().secondary.path is Some
                || config.deep_view().secondary.url is Some)),
            r matches Ok(data) ==> {
                &&& data.deep_view().main.plugin == location_of(
                    config.deep_view().main.path,
                    config.deep_view().main.url,
                )
                &&& data.deep_view().main.directory == (match config.deep_view().main.directory {
                    Some(d) => d,
                    None => default_directory@,
                })
                &&& data.deep_view().secondary.plugin == location_of(
                    config.deep_view().secondary.path,
                    config.deep_view().secondary.url,
                )
                &&& data.deep_view().secondary.directory == (match config.deep_view()
                    .secondary.directory {
                    Some(d) => d,
                    None => default_directory@,
                })
                &&& data.deep_view().main.lints_paths == Seq::<Seq<char>>::empty()
                &&& data.deep_view().main.urls == Seq::<Seq<char>>::empty()
                &&& data.deep_view().secondary.lints_paths == Seq::<Seq<char>>::empty()
                &&& data.deep_view().secondary.urls == Seq::<Seq<char>>::empty()
            },
            r is Err ==> (r matches Err(e) && e.deep_view() == ConfigErrorModel::NoPluginSource),
    {
        let main = match PluginData::from_cli_compare_plugin_config(
            config.main,
            default_directory.clone(),
        ) {
            Ok(data) => data,
            Err(e) => {
                return Err(e);
            },
        };
        let secondary = match PluginData::from_cli_compare_plugin_config(
            config.secondary,
            default_directory,
        ) {
            Ok(data) => data,
            Err(e) => {
                return Err(e);
            },
        };
        Ok(ComparePluginData { main, secondary })
    }
}

} // verus!
