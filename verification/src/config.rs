//! The configuration file and the settings in effect.
//!
//! What is in effect comes, first that applies, from the environment, from the file, or from the
//! built-in default.
use vstd::prelude::*;

use crate::identity::{
    config_dir_of, identity_error_text, non_empty_value, or_text, set_value, Error, Surroundings,
    DEFAULT_RELAY_URL, DEFAULT_RENDEZVOUS_URL,
};
use crate::text::{decimal, decimal_string, quote, quoted, same_text, trim, trimmed};
use crate::transfer::paths::{join_path, joined};

verus! {

broadcast use vstd::string::group_string_axioms;

/// File name of the configuration inside the config dir.
pub const CONFIG_FILE: &'static str = "config.toml";

/// What the file says: only what has been set explicitly.
#[derive(Debug, Clone, PartialEq, Eq)]
pub struct ConfigFile {
    pub rendezvous_url: Option<String>,
    pub relay_url: Option<String>,
    pub data_dir: Option<String>,
    pub overwrite: Option<bool>,
}

/// The settings of a file.
#[verifier::ext_equal]
pub struct FileView {
    pub rendezvous_url: Option<Seq<char>>,
    pub relay_url: Option<Seq<char>>,
    pub data_dir: Option<Seq<char>>,
    pub overwrite: Option<bool>,
}

/// The text of an optional string.
pub open spec fn text_of_option(value: Option<String>) -> Option<Seq<char>> {
    match value {
        Some(value) => Some(value@),
        None => None,
    }
}

impl View for ConfigFile {
    type V = FileView;

    open spec fn view(&self) -> FileView {
        FileView {
            rendezvous_url: text_of_option(self.rendezvous_url),
            relay_url: text_of_option(self.relay_url),
            data_dir: text_of_option(self.data_dir),
            overwrite: self.overwrite,
        }
    }
}

/// Errors from config file I/O, parsing, and resolution.
#[derive(Debug, Clone, PartialEq, Eq)]
pub enum ConfigError {
    /// No config dir could be resolved.
    NoConfigDir(Error),
    /// Failed to read an existing config file.
    Read { path: String, source: String },
    /// The config file is not valid.
    Parse { path: String, source: String },
    /// Failed to write or rename the config file.
    Write { path: String, source: String },
    /// Failed to serialize the configuration.
    Encode { path: String, source: String },
    /// A key that is not one of the four known fields.
    InvalidKey(String),
    /// A value that the field cannot take.
    InvalidValue { key: String, reason: String },
}

/// A sentence in two languages about a path and a reason.
pub open spec fn path_sentence(
    chinese: Seq<char>,
    english: Seq<char>,
    path: Seq<char>,
    source: Seq<char>,
) -> Seq<char> {
    chinese + path + ": "@ + source + english + path + ": "@ + source
}

/// The sentence that reports an error of the configuration.
pub open spec fn config_error_text(error: ConfigError) -> Seq<char> {
    match error {
        ConfigError::NoConfigDir(source) => identity_error_text(source),
        ConfigError::Read { path, source } => path_sentence(
            "读取配置文件失败 "@,
            " / failed to read config file "@,
            path@,
            source@,
        ),
        ConfigError::Parse { path, source } => path_sentence(
            "配置文件无效 "@,
            " / invalid config file "@,
            path@,
            source@,
        ),
        ConfigError::Write { path, source } => path_sentence(
            "写入配置文件失败 "@,
            " / failed to write config file "@,
            path@,
            source@,
        ),
        ConfigError::Encode { path, source } => path_sentence(
            "配置文件编码失败 "@,
            " / failed to encode config file "@,
            path@,
            source@,
        ),
        ConfigError::InvalidKey(key) => "未知配置项 "@ + quoted(key@)
            + "（有效项：rendezvous_url、relay_url、data_dir、overwrite） / unknown config key "@ + quoted(
            key@,
        ) + "; valid keys: rendezvous_url, relay_url, data_dir, overwrite"@,
        ConfigError::InvalidValue { key, reason } => "配置项 "@ + quoted(key@) + " 的值无效: "@ + reason@
            + " / invalid value for config key "@ + quoted(key@) + ": "@ + reason@,
    }
}

fn two_languages(chinese: &str, english: &str, path: &str, source: &str) -> (text: String)
    ensures
        text@ == path_sentence(chinese@, english@, path@, source@),
{
    chinese.to_owned().concat(path).concat(": ").concat(source).concat(english).concat(path).concat(
        ": ",
    ).concat(source)
}

impl ConfigError {
    /// The sentence that reports the error, in two languages.
    pub fn to_string(&self) -> (text: String)
        ensures
            text@ == config_error_text(*self),
    {
        match self {
            ConfigError::NoConfigDir(source) => source.to_string(),
            ConfigError::Read { path, source } => two_languages(
                "读取配置文件失败 ",
                " / failed to read config file ",
                path.as_str(),
                source.as_str(),
            ),
            ConfigError::Parse { path, source } => two_languages(
                "配置文件无效 ",
                " / invalid config file ",
                path.as_str(),
                source.as_str(),
            ),
            ConfigError::Write { path, source } => two_languages(
                "写入配置文件失败 ",
                " / failed to write config file ",
                path.as_str(),
                source.as_str(),
            ),
            ConfigError::Encode { path, source } => two_languages(
                "配置文件编码失败 ",
                " / failed to encode config file ",
                path.as_str(),
                source.as_str(),
            ),
            ConfigError::InvalidKey(key) => {
                let name = quote(key.as_str());
                "未知配置项 ".to_owned().concat(name.as_str()).concat(
                    "（有效项：rendezvous_url、relay_url、data_dir、overwrite） / unknown config key ",
                ).concat(name.as_str()).concat(
                    "; valid keys: rendezvous_url, relay_url, data_dir, overwrite",
                )
            },
            ConfigError::InvalidValue { key, reason } => {
                let name = quote(key.as_str());
                "配置项 ".to_owned().concat(name.as_str()).concat(" 的值无效: ").concat(
                    reason.as_str(),
                ).concat(" / invalid value for config key ").concat(name.as_str()).concat(
                    ": ",
                ).concat(reason.as_str())
            },
        }
    }
}

/// Whether setting a key to a value fails as `error` says.
pub open spec fn set_fails(key: Seq<char>, value: Seq<char>, error: ConfigError) -> bool {
    match error {
        ConfigError::InvalidKey(k) => k@ == key && !is_text_key(key) && key != "overwrite"@,
        ConfigError::InvalidValue { key: k, reason } => k@ == key && if is_text_key(key) {
            trimmed(value).len() == 0 && reason@ == "value must not be empty"@
        } else {
            key == "overwrite"@ && trimmed(value) != "true"@ && trimmed(value) != "false"@
                && reason@ == "expected \"true\" or \"false\""@
        },
        _ => false,
    }
}

/// The keys whose values are texts.
pub open spec fn is_text_key(key: Seq<char>) -> bool {
    key == "rendezvous_url"@ || key == "relay_url"@ || key == "data_dir"@
}

/// Whether a key can be set to a value.
pub open spec fn settable(key: Seq<char>, value: Seq<char>) -> bool {
    if is_text_key(key) {
        trimmed(value).len() > 0
    } else {
        key == "overwrite"@ && (trimmed(value) == "true"@ || trimmed(value) == "false"@)
    }
}

impl FileView {
    /// The file with a key set to a value.
    pub open spec fn with(self, key: Seq<char>, value: Seq<char>) -> FileView {
        if key == "rendezvous_url"@ {
            FileView { rendezvous_url: Some(value), ..self }
        } else if key == "relay_url"@ {
            FileView { relay_url: Some(value), ..self }
        } else if key == "data_dir"@ {
            FileView { data_dir: Some(value), ..self }
        } else {
            FileView { overwrite: Some(value == "true"@), ..self }
        }
    }
}

/// What reading the configuration file gave.
#[derive(Debug)]
pub enum ConfigRead {
    /// The file was read and is valid.
    Parsed(ConfigFile),
    /// The file was read and is not valid, and why.
    Malformed(String),
    /// There is no such file.
    Missing,
    /// The file cannot be read, and why.
    Failed(String),
}

/// What a configuration file says, as far as it could be read.
pub open spec fn file_read(read: ConfigRead) -> Option<FileView> {
    match read {
        ConfigRead::Parsed(file) => Some(file@),
        ConfigRead::Missing => Some(
            FileView { rendezvous_url: None, relay_url: None, data_dir: None, overwrite: None },
        ),
        _ => None,
    }
}

/// Whether an error says why there is no configuration.
pub open spec fn load_fails(around: Surroundings, read: ConfigRead, error: ConfigError) -> bool {
    match (config_dir_of(around), read) {
        (None, _) => error == ConfigError::NoConfigDir(Error::ConfigDirNotFound),
        (Some(dir), ConfigRead::Malformed(reason)) => error matches ConfigError::Parse {
            path,
            source,
        } && path@ == joined(dir, CONFIG_FILE@) && source == reason,
        (Some(dir), ConfigRead::Failed(reason)) => error matches ConfigError::Read { path, source }
            && path@ == joined(dir, CONFIG_FILE@) && source == reason,
        _ => false,
    }
}

impl Default for ConfigFile {
    fn default() -> (file: Self)
        ensures
            file@ == (FileView {
                rendezvous_url: None,
                relay_url: None,
                data_dir: None,
                overwrite: None,
            }),
    {
        ConfigFile { rendezvous_url: None, relay_url: None, data_dir: None, overwrite: None }
    }
}

impl ConfigFile {
    /// The path of the configuration file.
    pub fn path(around: &Surroundings) -> (path: Result<String, ConfigError>)
        ensures
            match path {
                Ok(path) => config_dir_of(*around) is Some && path@ == joined(
                    config_dir_of(*around)->0,
                    CONFIG_FILE@,
                ),
                Err(error) => config_dir_of(*around) is None && error == ConfigError::NoConfigDir(
                    Error::ConfigDirNotFound,
                ),
            },
    {
        match crate::identity::Config::config_dir(around) {
            Ok(dir) => Ok(join_path(dir.as_str(), CONFIG_FILE)),
            Err(error) => Err(ConfigError::NoConfigDir(error)),
        }
    }

    /// The configuration file in the config dir, given what reading it gave.
    pub fn load(around: &Surroundings, read: ConfigRead) -> (file: Result<ConfigFile, ConfigError>)
        ensures
            match file {
                Ok(file) => config_dir_of(*around) is Some && file_read(read) == Some(file@) && (
                read matches ConfigRead::Parsed(parsed) ==> file == parsed),
                Err(error) => load_fails(*around, read, error) && (config_dir_of(*around) is None
                    || file_read(read) is None),
            },
    {
        match ConfigFile::path(around) {
            Ok(path) => ConfigFile::load_from(path.as_str(), read),
            Err(error) => Err(error),
        }
    }

    /// The configuration file at `path`; a missing file says nothing.
    pub fn load_from(path: &str, read: ConfigRead) -> (file: Result<ConfigFile, ConfigError>)
        ensures
            match (read, file) {
                (ConfigRead::Parsed(parsed), Ok(file)) => file == parsed,
                (ConfigRead::Missing, Ok(file)) => file@ == (FileView {
                    rendezvous_url: None,
                    relay_url: None,
                    data_dir: None,
                    overwrite: None,
                }),
                (ConfigRead::Malformed(reason), Err(ConfigError::Parse { path: p, source })) => p@
                    == path@ && source == reason,
                (ConfigRead::Failed(reason), Err(ConfigError::Read { path: p, source })) => p@
                    == path@ && source == reason,
                _ => false,
            },
    {
        match read {
            ConfigRead::Parsed(file) => Ok(file),
            ConfigRead::Missing => Ok(ConfigFile::default()),
            ConfigRead::Malformed(source) => Err(
                ConfigError::Parse { path: path.to_owned(), source },
            ),
            ConfigRead::Failed(source) => Err(ConfigError::Read { path: path.to_owned(), source }),
        }
    }

    /// Sets one field and returns the value that was stored: the text without surrounding white
    /// space, or `true` or `false`. What cannot be set changes nothing.
    pub fn set(&mut self, key: &str, value: &str) -> (stored: Result<String, ConfigError>)
        ensures
            match stored {
                Ok(stored) => settable(key@, value@) && stored@ == trimmed(value@) && final(self)@
                    == old(self)@.with(key@, trimmed(value@)),
                Err(error) => !settable(key@, value@) && set_fails(key@, value@, error)
                    && final(self)@ == old(self)@,
            },
    {
        proof {
            keys_differ();
        }
        if same_text(key, "rendezvous_url") {
            let text = non_empty(key, value)?;
            self.rendezvous_url = Some(text.clone());
            Ok(text)
        } else if same_text(key, "relay_url") {
            let text = non_empty(key, value)?;
            self.relay_url = Some(text.clone());
            Ok(text)
        } else if same_text(key, "data_dir") {
            let text = non_empty(key, value)?;
            self.data_dir = Some(text.clone());
            Ok(text)
        } else if same_text(key, "overwrite") {
            let text = trim(value);
            if same_text(text.as_str(), "true") {
                self.overwrite = Some(true);
                Ok(text)
            } else if same_text(text.as_str(), "false") {
                self.overwrite = Some(false);
                Ok(text)
            } else {
                Err(
                    ConfigError::InvalidValue {
                        key: key.to_owned(),
                        reason: "expected \"true\" or \"false\"".to_owned(),
                    },
                )
            }
        } else {
            Err(ConfigError::InvalidKey(key.to_owned()))
        }
    }
}

fn non_empty(key: &str, value: &str) -> (text: Result<String, ConfigError>)
    ensures
        match text {
            Ok(text) => trimmed(value@).len() > 0 && text@ == trimmed(value@),
            Err(ConfigError::InvalidValue { key: k, reason }) => trimmed(value@).len() == 0 && k@
                == key@ && reason@ == "value must not be empty"@,
            Err(_) => false,
        },
{
    let text = trim(value);
    if text.as_str().is_empty() {
        return Err(
            ConfigError::InvalidValue {
                key: key.to_owned(),
                reason: "value must not be empty".to_owned(),
            },
        );
    }
    Ok(text)
}

/// The settings in effect.
#[derive(Debug, Clone, PartialEq, Eq)]
pub struct Config {
    pub data_dir: String,
    pub rendezvous_url: String,
    pub relay_url: String,
    pub overwrite: bool,
}

/// The settings in effect, as texts.
#[verifier::ext_equal]
pub struct Effective {
    pub data_dir: Seq<char>,
    pub rendezvous_url: Seq<char>,
    pub relay_url: Seq<char>,
    pub overwrite: bool,
}

impl View for Config {
    type V = Effective;

    open spec fn view(&self) -> Effective {
        Effective {
            data_dir: self.data_dir@,
            rendezvous_url: self.rendezvous_url@,
            relay_url: self.relay_url@,
            overwrite: self.overwrite,
        }
    }
}

/// The first of two values that is there.
pub open spec fn first_of(a: Option<Seq<char>>, b: Option<Seq<char>>) -> Option<Seq<char>> {
    match a {
        Some(_) => a,
        None => b,
    }
}

/// The settings in effect: environment, then file, then default. There are none without a config
/// dir.
pub open spec fn in_effect(file: FileView, around: Surroundings) -> Option<Effective> {
    match config_dir_of(around) {
        None => None,
        Some(config_dir) => Some(
            Effective {
                data_dir: or_text(first_of(set_value(around.data_dir), file.data_dir), config_dir),
                rendezvous_url: or_text(
                    first_of(set_value(around.rendezvous_url), file.rendezvous_url),
                    DEFAULT_RENDEZVOUS_URL@,
                ),
                relay_url: or_text(
                    first_of(set_value(around.relay_url), file.relay_url),
                    DEFAULT_RELAY_URL@,
                ),
                overwrite: file.overwrite == Some(true),
            },
        ),
    }
}

/// The name of a truth value.
pub open spec fn truth_text(value: bool) -> Seq<char> {
    if value {
        "true"@
    } else {
        "false"@
    }
}

impl Effective {
    /// The value of a key, as it is shown.
    pub open spec fn value_of(self, key: Seq<char>) -> Option<Seq<char>> {
        if key == "rendezvous_url"@ {
            Some(self.rendezvous_url)
        } else if key == "relay_url"@ {
            Some(self.relay_url)
        } else if key == "data_dir"@ {
            Some(self.data_dir)
        } else if key == "overwrite"@ {
            Some(truth_text(self.overwrite))
        } else {
            None
        }
    }
}

fn pick(variable: &Option<String>, stored: &Option<String>, fallback: &str) -> (text: String)
    ensures
        text@ == or_text(first_of(set_value(*variable), text_of_option(*stored)), fallback@),
{
    match non_empty_value(variable) {
        Some(text) => text,
        None => match stored {
            Some(text) => text.clone(),
            None => fallback.to_owned(),
        },
    }
}

/// The name of a truth value.
pub fn truth(value: bool) -> (text: &'static str)
    ensures
        text@ == truth_text(value),
{
    if value {
        "true"
    } else {
        "false"
    }
}

impl Config {
    /// The settings in effect, given what reading the configuration file gave.
    pub fn load(around: &Surroundings, read: ConfigRead) -> (config: Result<Config, ConfigError>)
        ensures
            match config {
                Ok(config) => file_read(read) is Some && in_effect(file_read(read)->0, *around)
                    == Some(config@),
                Err(error) => load_fails(*around, read, error) && (config_dir_of(*around) is None
                    || file_read(read) is None),
            },
    {
        match ConfigFile::load(around, read) {
            Ok(file) => Config::resolve(&file, around),
            Err(error) => Err(error),
        }
    }

    /// The settings in effect.
    pub fn resolve(file: &ConfigFile, around: &Surroundings) -> (config: Result<Config, ConfigError>)
        ensures
            match config {
                Ok(config) => in_effect(file@, *around) == Some(config@),
                Err(error) => in_effect(file@, *around) is None && error
                    == ConfigError::NoConfigDir(Error::ConfigDirNotFound),
            },
    {
        let config_dir = match crate::identity::Config::config_dir(around) {
            Ok(dir) => dir,
            Err(error) => {
                return Err(ConfigError::NoConfigDir(error));
            },
        };
        Ok(
            Config {
                data_dir: pick(&around.data_dir, &file.data_dir, config_dir.as_str()),
                rendezvous_url: pick(
                    &around.rendezvous_url,
                    &file.rendezvous_url,
                    DEFAULT_RENDEZVOUS_URL,
                ),
                relay_url: pick(&around.relay_url, &file.relay_url, DEFAULT_RELAY_URL),
                overwrite: match file.overwrite {
                    Some(overwrite) => overwrite,
                    None => false,
                },
            },
        )
    }

    /// The value of one field, as it is shown.
    pub fn field(&self, key: &str) -> (value: Result<String, ConfigError>)
        ensures
            match value {
                Ok(value) => self@.value_of(key@) == Some(value@),
                Err(ConfigError::InvalidKey(k)) => self@.value_of(key@) is None && k@ == key@,
                Err(_) => false,
            },
    {
        if same_text(key, "rendezvous_url") {
            Ok(self.rendezvous_url.clone())
        } else if same_text(key, "relay_url") {
            Ok(self.relay_url.clone())
        } else if same_text(key, "data_dir") {
            Ok(self.data_dir.clone())
        } else if same_text(key, "overwrite") {
            Ok(truth(self.overwrite).to_owned())
        } else {
            Err(ConfigError::InvalidKey(key.to_owned()))
        }
    }
}

/// The temporary file that a configuration is written to before it takes its place: in the same
/// directory, under the file's name, the process and a suffix.
pub fn temporary_config_path(dir: &str, name: &str, pid: u32) -> (path: String)
    ensures
        path@ == joined(dir@, "."@ + name@ + "."@ + decimal(pid as nat) + ".tmp"@),
{
    let file = ".".to_owned().concat(name).concat(".").concat(
        decimal_string(pid as u64).as_str(),
    ).concat(".tmp");
    join_path(dir, file.as_str())
}

pub(crate) proof fn keys_differ()
    ensures
        "rendezvous_url"@ != "relay_url"@,
        "rendezvous_url"@ != "data_dir"@,
        "rendezvous_url"@ != "overwrite"@,
        "relay_url"@ != "data_dir"@,
        "relay_url"@ != "overwrite"@,
        "data_dir"@ != "overwrite"@,
        "true"@ != "false"@,
{
    reveal_strlit("rendezvous_url");
    reveal_strlit("relay_url");
    reveal_strlit("data_dir");
    reveal_strlit("overwrite");
    reveal_strlit("true");
    reveal_strlit("false");
    assert("rendezvous_url"@.len() == 14);
    assert("relay_url"@.len() == 9);
    assert("overwrite"@.len() == 9);
    assert("data_dir"@.len() == 8);
    assert("relay_url"@[0] != "overwrite"@[0]);
    assert("true"@.len() == 4 && "false"@.len() == 5);
}

/// The variable that overrides a key, if there is one.
pub open spec fn override_of(around: Surroundings, key: Seq<char>) -> Option<Seq<char>> {
    if key == "rendezvous_url"@ {
        set_value(around.rendezvous_url)
    } else if key == "relay_url"@ {
        set_value(around.relay_url)
    } else if key == "data_dir"@ {
        set_value(around.data_dir)
    } else {
        None
    }
}

/// What was set is what is in effect, unless the environment overrides it.
pub proof fn set_value_takes_effect(
    file: FileView,
    around: Surroundings,
    key: Seq<char>,
    value: Seq<char>,
)
    requires
        settable(key, value),
        override_of(around, key) is None,
        config_dir_of(around) is Some,
    ensures
        in_effect(file.with(key, trimmed(value)), around)->0.value_of(key) == Some(trimmed(value)),
{
    keys_differ();
}

/// Setting one key leaves the others in effect as they were.
pub proof fn set_value_leaves_other_keys(
    file: FileView,
    around: Surroundings,
    key: Seq<char>,
    value: Seq<char>,
    other: Seq<char>,
)
    requires
        settable(key, value),
        other != key,
        config_dir_of(around) is Some,
    ensures
        in_effect(file.with(key, trimmed(value)), around)->0.value_of(other) == in_effect(
            file,
            around,
        )->0.value_of(other),
{
    keys_differ();
}

/// The environment wins over the file, whatever the file says.
pub proof fn environment_wins(file: FileView, around: Surroundings, key: Seq<char>)
    requires
        override_of(around, key) is Some,
        config_dir_of(around) is Some,
    ensures
        in_effect(file, around)->0.value_of(key) == override_of(around, key),
{
    keys_differ();
}

} // verus!
