//! The persistent identity of a node, and where its settings come from.
//!
//! The identity is a 32-byte seed that is generated once, stored as it is in the config dir, and
//! loaded on every later run. Every 32-byte file is a valid seed; a file of another length is
//! replaced.
use iroh_base::SecretKey;
use vstd::prelude::*;

use crate::pairing::handshake::array_of_32;
use crate::text::{decimal, decimal_string};
use crate::transfer::paths::{join_path, joined};
use crate::transfer::record::{after_creation, Creation, CreationStep};

verus! {

broadcast use vstd::string::group_string_axioms;

/// Default rendezvous: a public MQTT broker, used as a pairing mailbox.
pub const DEFAULT_RENDEZVOUS_URL: &'static str = "mqtts://broker.emqx.io:8883";

/// Default relay: the public relay fleet.
pub const DEFAULT_RELAY_URL: &'static str = "public";

/// File name of the persisted identity key inside the config dir.
pub const KEY_FILE: &'static str = "key.bin";

/// Overrides the config dir.
pub const ENV_CONFIG_DIR: &'static str = "WORDDROP_CONFIG_DIR";

/// Overrides the data dir.
pub const ENV_DATA_DIR: &'static str = "WORDDROP_DATA_DIR";

/// Overrides the rendezvous URL.
pub const ENV_RENDEZVOUS_URL: &'static str = "WORDDROP_RENDEZVOUS_URL";

/// Overrides the relay URL.
pub const ENV_RELAY_URL: &'static str = "WORDDROP_RELAY_URL";

/// Errors from identity loading and config resolution.
#[derive(Debug, Clone, PartialEq, Eq)]
pub enum Error {
    /// There is no platform config dir, and no override is set.
    ConfigDirNotFound,
    /// Failed to read the persisted key file.
    ReadKey { path: String, source: String },
    /// Failed to create, write, or rename the key file.
    WriteKey { dir: String, source: String },
}

/// The sentence that reports an error.
pub open spec fn identity_error_text(error: Error) -> Seq<char> {
    match error {
        Error::ConfigDirNotFound =>
            "no platform config dir found; set WORDDROP_CONFIG_DIR to an explicit directory"@,
        Error::ReadKey { path, source } => "failed to read identity key file "@ + path@ + ": "@
            + source@,
        Error::WriteKey { dir, source } => "failed to write identity key in "@ + dir@ + ": "@
            + source@,
    }
}

impl Error {
    /// The sentence that reports the error.
    pub fn to_string(&self) -> (text: String)
        ensures
            text@ == identity_error_text(*self),
    {
        match self {
            Error::ConfigDirNotFound => {
                "no platform config dir found; set WORDDROP_CONFIG_DIR to an explicit directory".to_owned()
            },
            Error::ReadKey { path, source } => {
                "failed to read identity key file ".to_owned().concat(path.as_str()).concat(
                    ": ",
                ).concat(source.as_str())
            },
            Error::WriteKey { dir, source } => {
                "failed to write identity key in ".to_owned().concat(dir.as_str()).concat(
                    ": ",
                ).concat(source.as_str())
            },
        }
    }
}

/// What the process finds around it: the variables that override settings, and the directory that
/// the platform keeps configuration in.
#[derive(Debug, Clone)]
pub struct Surroundings {
    pub config_dir: Option<String>,
    pub data_dir: Option<String>,
    pub rendezvous_url: Option<String>,
    pub relay_url: Option<String>,
    pub platform_dir: Option<String>,
}

/// The value of a variable; an empty one counts as not set.
pub open spec fn set_value(value: Option<String>) -> Option<Seq<char>> {
    match value {
        Some(value) => if value@.len() > 0 {
            Some(value@)
        } else {
            None
        },
        None => None,
    }
}

/// The value, or the fallback where there is none.
pub open spec fn or_text(value: Option<Seq<char>>, fallback: Seq<char>) -> Seq<char> {
    match value {
        Some(value) => value,
        None => fallback,
    }
}

/// The value of a variable; an empty one counts as not set.
pub fn non_empty_value(value: &Option<String>) -> (out: Option<String>)
    ensures
        match out {
            Some(text) => set_value(*value) == Some(text@),
            None => set_value(*value) is None,
        },
{
    match value {
        Some(value) => {
            if value.as_str().is_empty() {
                None
            } else {
                Some(value.clone())
            }
        },
        None => None,
    }
}

/// The directory for settings: the override, or `worddrop` in the platform's directory.
pub open spec fn config_dir_of(around: Surroundings) -> Option<Seq<char>> {
    match set_value(around.config_dir) {
        Some(dir) => Some(dir),
        None => match around.platform_dir {
            Some(dir) => Some(joined(dir@, "worddrop"@)),
            None => None,
        },
    }
}

/// Runtime configuration with platform defaults and overrides.
#[derive(Debug, Clone, PartialEq, Eq)]
pub struct Config {
    /// Directory for blobs, transfer records, and (by default) the identity key.
    pub data_dir: String,
    /// Rendezvous server URL.
    pub rendezvous_url: String,
    /// Relay server URL.
    pub relay_url: String,
}

impl Config {
    /// The directory for settings.
    pub fn config_dir(around: &Surroundings) -> (dir: Result<String, Error>)
        ensures
            match dir {
                Ok(dir) => config_dir_of(*around) == Some(dir@),
                Err(error) => config_dir_of(*around) is None && error == Error::ConfigDirNotFound,
            },
    {
        match non_empty_value(&around.config_dir) {
            Some(dir) => Ok(dir),
            None => match &around.platform_dir {
                Some(dir) => Ok(join_path(dir.as_str(), "worddrop")),
                None => Err(Error::ConfigDirNotFound),
            },
        }
    }

    /// The configuration from the surroundings, with defaults. The data dir defaults to the config
    /// dir, which is not needed where a data dir is set.
    pub fn load(around: &Surroundings) -> (config: Result<Config, Error>)
        ensures
            match config {
                Ok(config) => {
                    &&& match set_value(around.data_dir) {
                        Some(dir) => config.data_dir@ == dir,
                        None => config_dir_of(*around) == Some(config.data_dir@),
                    }
                    &&& config.rendezvous_url@ == or_text(
                        set_value(around.rendezvous_url),
                        DEFAULT_RENDEZVOUS_URL@,
                    )
                    &&& config.relay_url@ == or_text(
                        set_value(around.relay_url),
                        DEFAULT_RELAY_URL@,
                    )
                },
                Err(error) => set_value(around.data_dir) is None && config_dir_of(*around) is None
                    && error == Error::ConfigDirNotFound,
            },
    {
        let data_dir = match non_empty_value(&around.data_dir) {
            Some(dir) => dir,
            None => match Config::config_dir(around) {
                Ok(dir) => dir,
                Err(error) => {
                    return Err(error);
                },
            },
        };
        Ok(
            Config {
                data_dir,
                rendezvous_url: value_or(&around.rendezvous_url, DEFAULT_RENDEZVOUS_URL),
                relay_url: value_or(&around.relay_url, DEFAULT_RELAY_URL),
            },
        )
    }

    /// A configuration with an explicit data dir and the default URLs.
    pub fn with_dir(data_dir: String) -> (config: Config)
        ensures
            config.data_dir == data_dir,
            config.rendezvous_url@ == DEFAULT_RENDEZVOUS_URL@,
            config.relay_url@ == DEFAULT_RELAY_URL@,
    {
        Config {
            data_dir,
            rendezvous_url: DEFAULT_RENDEZVOUS_URL.to_owned(),
            relay_url: DEFAULT_RELAY_URL.to_owned(),
        }
    }
}

fn value_or(value: &Option<String>, fallback: &str) -> (text: String)
    ensures
        text@ == or_text(set_value(*value), fallback@),
{
    match non_empty_value(value) {
        Some(text) => text,
        None => fallback.to_owned(),
    }
}

/// The public key that belongs to a secret seed.
pub uninterp spec fn public_key(seed: Seq<u8>) -> Seq<u8>;

/// `SecretKey::from_bytes` and `SecretKey::public` of `iroh_base`: the 32 bytes of the public key,
/// which the seed determines.
#[verifier::external_body]
fn derive_public(seed: &[u8; 32]) -> (key: [u8; 32])
    ensures
        key@ == public_key(seed@),
{
    *SecretKey::from_bytes(seed).public().as_bytes()
}

/// `SecretKey::generate` of `iroh_base`: a fresh seed, left to chance.
#[verifier::external_body]
fn generate_seed() -> (seed: [u8; 32]) {
    SecretKey::generate().to_bytes()
}

/// What reading the key file gave.
#[derive(Debug)]
pub enum KeyRead {
    /// The file's contents.
    Found(Vec<u8>),
    /// There is no such file.
    Missing,
    /// The file cannot be read, and why.
    Failed(String),
}

/// The persistent identity of a node.
#[derive(Clone)]
pub struct Identity {
    seed: [u8; 32],
}

impl View for Identity {
    type V = Seq<u8>;

    closed spec fn view(&self) -> Seq<u8> {
        self.seed@
    }
}

impl Identity {
    /// Path of the persisted key file inside `config_dir`.
    pub fn key_path(config_dir: &str) -> (path: String)
        ensures
            path@ == joined(config_dir@, KEY_FILE@),
    {
        join_path(config_dir, KEY_FILE)
    }

    /// The seed that a key file holds: its contents, if they are 32 bytes long.
    pub fn stored_seed(contents: &Vec<u8>) -> (seed: Option<[u8; 32]>)
        ensures
            match seed {
                Some(seed) => contents@.len() == 32 && seed@ == contents@,
                None => contents@.len() != 32,
            },
    {
        array_of_32(contents)
    }

    /// The identity that a key file holds, so that a key once stored is the key of every later
    /// run; or a fresh one where the file is missing or has the wrong length. The flag tells
    /// whether the identity is fresh and still has to be stored; any other failure to read is an
    /// error.
    pub fn load_or_create(config_dir: &str, read: KeyRead) -> (out: Result<(Self, bool), Error>)
        ensures
            match (read, out) {
                (KeyRead::Found(contents), Ok((identity, fresh))) => fresh == (contents@.len()
                    != 32) && (!fresh ==> identity@ == contents@),
                (KeyRead::Missing, Ok((_, fresh))) => fresh,
                (KeyRead::Failed(reason), Err(Error::ReadKey { path, source })) => path@ == joined(
                    config_dir@,
                    KEY_FILE@,
                ) && source == reason,
                _ => false,
            },
            out matches Ok((identity, _)) ==> identity@.len() == 32,
    {
        Identity::load_or_use(config_dir, read, generate_seed())
    }

    /// The identity that a key file holds, or the one with the seed `drawn` where the file is
    /// missing or has the wrong length.
    pub fn load_or_use(config_dir: &str, read: KeyRead, drawn: [u8; 32]) -> (out: Result<
        (Self, bool),
        Error,
    >)
        ensures
            match (read, out) {
                (KeyRead::Found(contents), Ok((identity, fresh))) => fresh == (contents@.len()
                    != 32) && identity@ == if fresh {
                    drawn@
                } else {
                    contents@
                },
                (KeyRead::Missing, Ok((identity, fresh))) => fresh && identity@ == drawn@,
                (KeyRead::Failed(reason), Err(Error::ReadKey { path, source })) => path@ == joined(
                    config_dir@,
                    KEY_FILE@,
                ) && source == reason,
                _ => false,
            },
            out matches Ok((identity, _)) ==> identity@.len() == 32,
    {
        match read {
            KeyRead::Found(contents) => match Identity::stored_seed(&contents) {
                Some(seed) => Ok((Identity { seed }, false)),
                None => Ok((Identity { seed: drawn }, true)),
            },
            KeyRead::Missing => Ok((Identity { seed: drawn }, true)),
            KeyRead::Failed(source) => Err(
                Error::ReadKey { path: Identity::key_path(config_dir), source },
            ),
        }
    }

    /// The node's public key, under which it is addressed.
    pub fn node_id(&self) -> (id: [u8; 32])
        ensures
            id@ == public_key(self@),
    {
        derive_public(&self.seed)
    }

    /// The secret seed.
    pub fn key_bytes(&self) -> (bytes: [u8; 32])
        ensures
            bytes@ == self@,
    {
        self.seed
    }
}

/// The path that the key is written to before it takes its place.
pub fn temporary_key_path(config_dir: &str, pid: u32) -> (path: String)
    ensures
        path@ == joined(config_dir@, ".key.bin."@ + decimal(pid as nat) + ".tmp"@),
{
    let name = ".key.bin.".to_owned().concat(decimal_string(pid as u64).as_str()).concat(".tmp");
    join_path(config_dir, name.as_str())
}

/// What to do after an attempt to create the temporary key file: write to it, remove what a
/// crashed run left behind and try once more, or fail.
pub fn key_creation_step(config_dir: &str, first_attempt: bool, creation: Creation) -> (step: Result<
    bool,
    Error,
>)
    ensures
        match (creation, step) {
            (Creation::Created, Ok(write)) => write,
            (Creation::Exists(_), Ok(write)) => first_attempt && !write,
            (Creation::Exists(reason), Err(Error::WriteKey { dir, source })) => !first_attempt
                && dir@ == config_dir@ && source == reason,
            (Creation::Failed(reason), Err(Error::WriteKey { dir, source })) => dir@ == config_dir@
                && source == reason,
            _ => false,
        },
{
    match after_creation(first_attempt, creation) {
        CreationStep::Write => Ok(true),
        CreationStep::RemoveAndRetry => Ok(false),
        CreationStep::Fail(source) => Err(Error::WriteKey { dir: config_dir.to_owned(), source }),
    }
}

} // verus!
