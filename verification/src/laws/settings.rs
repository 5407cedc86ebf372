//! Laws of the settings, of the identity, of the relay and of the commands.
use vstd::prelude::*;

use crate::cli::{log_level, parse_error_code, Cli, Commands, ConfigCommands, LogLevel};
use crate::commands::{configured_relay, get, role_data_dir, run, Role, Task};
use crate::config::{temporary_config_path, Config, ConfigError, ConfigFile, ConfigRead};
use crate::error::CliError;
use crate::identity::{key_creation_step, temporary_key_path, Identity, KeyRead, Surroundings};
use crate::receive::RecvError;
use crate::relay::{
    custom_relay, engine_relay, relay_keyword, relay_mode_from_url, relay_scheme, text_result,
    RelayMode,
};
use crate::send::SendError;
use crate::text::{ascii_lower, ascii_lowercase, decimal_string, quoted, trim};
use crate::transfer::engine::{store_dir, Standing};
use crate::transfer::paths::joined;
use crate::transfer::record::{after_creation, Creation, CreationStep};

verus! {

broadcast use vstd::string::group_string_axioms;

/// A setting is stored under its key without the white space around it, if it is not empty, and
/// `overwrite` only as true or false. Other keys are refused; what is refused changes nothing, and
/// no setting changes but the named one.
pub proof fn a_setting_is_stored_under_its_key(
    file: &mut ConfigFile,
    key: &str,
    value: &str,
    stored: Result<String, ConfigError>,
    core: String,
)
    requires
        call_ensures(ConfigFile::set, (file, key, value), stored),
        call_ensures(trim, (value,), core),
    ensures
        ({
            let before = old(file)@;
            let after = final(file)@;
            let texts = key@ == "rendezvous_url"@ || key@ == "relay_url"@ || key@ == "data_dir"@;
            &&& stored matches Ok(text) ==> text@ == core@
            &&& texts ==> (stored is Ok <==> core@.len() > 0)
            &&& key@ == "overwrite"@ ==> (stored is Ok <==> core@ == "true"@ || core@ == "false"@)
            &&& !texts && key@ != "overwrite"@ ==> (stored matches Err(ConfigError::InvalidKey(k))
                && k@ == key@)
            &&& texts && stored is Err ==> (stored matches Err(
                ConfigError::InvalidValue { key: k, reason },
            ) && k@ == key@ && reason@ == "value must not be empty"@)
            &&& key@ == "overwrite"@ && stored is Err ==> (stored matches Err(
                ConfigError::InvalidValue { key: k, reason },
            ) && k@ == key@ && reason@ == "expected \"true\" or \"false\""@)
            &&& stored is Err ==> after == before
            &&& stored is Ok && key@ == "rendezvous_url"@ ==> after.rendezvous_url == Some(core@)
            &&& key@ != "rendezvous_url"@ ==> after.rendezvous_url == before.rendezvous_url
            &&& stored is Ok && key@ == "relay_url"@ ==> after.relay_url == Some(core@)
            &&& key@ != "relay_url"@ ==> after.relay_url == before.relay_url
            &&& stored is Ok && key@ == "data_dir"@ ==> after.data_dir == Some(core@)
            &&& key@ != "data_dir"@ ==> after.data_dir == before.data_dir
            &&& stored is Ok && key@ == "overwrite"@ ==> after.overwrite == Some(
                core@ == "true"@,
            )
            &&& key@ != "overwrite"@ ==> after.overwrite == before.overwrite
        }),
{
    crate::config::keys_differ();
}

/// Whether a text is the first of three that is there: a variable that is not empty, what the file
/// says, or a default.
pub open spec fn first_there(
    text: Seq<char>,
    variable: Option<String>,
    stored: Option<Seq<char>>,
    default: Seq<char>,
) -> bool {
    match variable {
        Some(given) if given@.len() > 0 => text == given@,
        _ => match stored {
            Some(known) => text == known,
            None => text == default,
        },
    }
}

/// A variable that is not empty wins over the file, and the file over the default; files are
/// overwritten only where the file says so. There are settings wherever there is a place for them.
pub proof fn variables_win_over_the_file(
    file: &ConfigFile,
    around: &Surroundings,
    config: Result<Config, ConfigError>,
    dir: Result<String, crate::identity::Error>,
)
    requires
        call_ensures(Config::resolve, (file, around), config),
        call_ensures(crate::identity::Config::config_dir, (around,), dir),
    ensures
        config is Ok <==> dir is Ok,
        config matches Ok(found) ==> {
            &&& first_there(
                found.rendezvous_url@,
                around.rendezvous_url,
                file@.rendezvous_url,
                "mqtts://broker.emqx.io:8883"@,
            )
            &&& first_there(found.relay_url@, around.relay_url, file@.relay_url, "public"@)
            &&& first_there(found.data_dir@, around.data_dir, file@.data_dir, dir->Ok_0@)
            &&& found.overwrite <==> file@.overwrite == Some(true)
        },
{
}

/// The settings live in the directory that the variable names, if it is not empty, or else in one
/// named after the program in that of the platform.
pub proof fn the_variable_names_the_directory(
    around: &Surroundings,
    dir: Result<String, crate::identity::Error>,
)
    requires
        call_ensures(crate::identity::Config::config_dir, (around,), dir),
    ensures
        around.config_dir matches Some(given) ==> (given@.len() > 0 ==> (dir matches Ok(d) && d@
            == given@)),
        around.config_dir is None || around.config_dir->0@.len() == 0 ==> match around.platform_dir {
            Some(base) => dir matches Ok(d) && d@ == if base@.len() == 0 || base@.last() == '/' {
                base@ + "worddrop"@
            } else {
                base@ + seq!['/'] + "worddrop"@
            },
            None => dir is Err,
        },
{
    if let Some(base) = around.platform_dir {
        assert(base@.push('/') + "worddrop"@ =~= base@ + seq!['/'] + "worddrop"@);
    }
}

/// What stands in the environment alone: the same variables and defaults, without a file.
pub proof fn the_environment_alone_makes_a_configuration(
    around: &Surroundings,
    config: Result<crate::identity::Config, crate::identity::Error>,
    dir: Result<String, crate::identity::Error>,
)
    requires
        call_ensures(crate::identity::Config::load, (around,), config),
        call_ensures(crate::identity::Config::config_dir, (around,), dir),
    ensures
        config matches Ok(found) ==> first_there(
            found.rendezvous_url@,
            around.rendezvous_url,
            None,
            "mqtts://broker.emqx.io:8883"@,
        ) && first_there(found.relay_url@, around.relay_url, None, "public"@),
        config matches Ok(found) ==> (around.data_dir matches Some(given) ==> (given@.len() > 0
            ==> found.data_dir@ == given@)),
        (around.data_dir is None || around.data_dir->0@.len() == 0) ==> (config is Ok <==> dir
            is Ok),
        (around.data_dir is None || around.data_dir->0@.len() == 0) ==> (config matches Ok(found)
            ==> found.data_dir@ == dir->Ok_0@),
{
}

/// A file that is not there says nothing and is no error; one that cannot be read or understood
/// is, with its path and the reason.
pub proof fn a_missing_file_says_nothing(
    path: &str,
    read: ConfigRead,
    file: Result<ConfigFile, ConfigError>,
)
    requires
        call_ensures(ConfigFile::load_from, (path, read), file),
    ensures
        read is Missing ==> (file matches Ok(f) && f@.rendezvous_url is None && f@.relay_url is None
            && f@.data_dir is None && f@.overwrite is None),
        read matches ConfigRead::Parsed(given) ==> file == Ok::<_, ConfigError>(given),
        read matches ConfigRead::Malformed(reason) ==> (file matches Err(
            ConfigError::Parse { path: p, source },
        ) && p@ == path@ && source@ == reason@),
        read matches ConfigRead::Failed(reason) ==> (file matches Err(
            ConfigError::Read { path: p, source },
        ) && p@ == path@ && source@ == reason@),
{
}

/// The file stands in the settings' directory.
pub proof fn the_file_stands_in_the_directory(
    around: &Surroundings,
    path: Result<String, ConfigError>,
    dir: Result<String, crate::identity::Error>,
)
    requires
        call_ensures(ConfigFile::path, (around,), path),
        call_ensures(crate::identity::Config::config_dir, (around,), dir),
    ensures
        path is Ok <==> dir is Ok,
        path matches Ok(p) ==> p@ == if dir->Ok_0@.len() == 0 || dir->Ok_0@.last() == '/' {
            dir->Ok_0@ + "config.toml"@
        } else {
            dir->Ok_0@ + seq!['/'] + "config.toml"@
        },
{
    if let Ok(d) = dir {
        assert(d@.push('/') + "config.toml"@ =~= d@ + seq!['/'] + "config.toml"@);
    }
}

/// A setting is shown by its key as it is in effect; other keys are unknown.
pub proof fn a_setting_is_shown_by_its_key(
    config: &Config,
    key: &str,
    value: Result<String, ConfigError>,
)
    requires
        call_ensures(Config::field, (config, key), value),
    ensures
        key@ == "rendezvous_url"@ ==> (value matches Ok(v) && v@ == config.rendezvous_url@),
        key@ == "relay_url"@ ==> (value matches Ok(v) && v@ == config.relay_url@),
        key@ == "data_dir"@ ==> (value matches Ok(v) && v@ == config.data_dir@),
        key@ == "overwrite"@ ==> (value matches Ok(v) && v@ == if config.overwrite {
            "true"@
        } else {
            "false"@
        }),
        key@ != "rendezvous_url"@ && key@ != "relay_url"@ && key@ != "data_dir"@ && key@
            != "overwrite"@ ==> (value matches Err(ConfigError::InvalidKey(k)) && k@ == key@),
{
    crate::config::keys_differ();
}

/// Printing a setting prints what is in effect and a line end; printing all of them prints each
/// on a line of its own.
pub proof fn settings_are_printed_as_they_are(
    file: &ConfigFile,
    around: &Surroundings,
    config: Config,
    key: &str,
    value: String,
    one: Result<String, CliError>,
    all: Result<String, CliError>,
)
    requires
        call_ensures(Config::resolve, (file, around), Ok::<_, ConfigError>(config)),
        call_ensures(Config::field, (&config, key), Ok::<_, ConfigError>(value)),
        call_ensures(get, (file, around, Some(key)), one),
        call_ensures(get, (file, around, None), all),
    ensures
        one matches Ok(text) && text@ == value@ + "\n"@,
        all matches Ok(text) && text@ == "rendezvous_url = \""@ + config.rendezvous_url@
            + "\"\nrelay_url = \""@ + config.relay_url@ + "\"\ndata_dir = \""@ + config.data_dir@
            + "\"\noverwrite = "@ + (if config.overwrite {
            "true"@
        } else {
            "false"@
        }) + "\n"@,
{
}

/// Setting a value changes the file as storing it does, and says what was stored.
pub proof fn setting_says_what_was_stored(
    file: ConfigFile,
    key: &str,
    value: &str,
    out: Result<(ConfigFile, String), CliError>,
    other: &mut ConfigFile,
    stored: Result<String, ConfigError>,
)
    requires
        call_ensures(crate::commands::set, (file, key, value), out),
        *old(other) == file,
        call_ensures(ConfigFile::set, (other, key, value), stored),
    ensures
        out is Ok <==> stored is Ok,
        out matches Ok((changed, text)) ==> changed@ == final(other)@ && text@ == key@ + " = "@
            + stored->Ok_0@ + "\n"@,
        out matches Err(error) ==> error is User,
{
}

/// What cannot be set is reported as the settings report it.
pub proof fn a_refused_setting_is_reported(
    file: ConfigFile,
    key: &str,
    value: &str,
    other: &mut ConfigFile,
    refused: ConfigError,
    refusal: String,
    out: CliError,
)
    requires
        call_ensures(
            crate::commands::set,
            (file, key, value),
            Err::<(ConfigFile, String), _>(out),
        ),
        *old(other) == file,
        call_ensures(ConfigFile::set, (other, key, value), Err::<String, _>(refused)),
        call_ensures(ConfigError::to_string, (&refused,), refusal),
    ensures
        out matches CliError::User(said) && said@ == refusal@,
{
    crate::config::keys_differ();
}

/// So is what cannot be shown.
pub proof fn an_unknown_setting_is_reported(
    file: &ConfigFile,
    around: &Surroundings,
    key: &str,
    config: Config,
    unknown: ConfigError,
    complaint: String,
    out: Result<String, CliError>,
)
    requires
        call_ensures(Config::resolve, (file, around), Ok::<_, ConfigError>(config)),
        call_ensures(Config::field, (&config, key), Err::<String, _>(unknown)),
        call_ensures(ConfigError::to_string, (&unknown,), complaint),
        call_ensures(get, (file, around, Some(key)), out),
    ensures
        out matches Err(CliError::User(said)) && said@ == complaint@,
{
}

/// A send is carried out with the paths that were named, a receive with the code and the output,
/// and each command with the settings in effect.
pub proof fn a_command_is_carried_out_as_given(
    args: Cli,
    around: &Surroundings,
    file: ConfigFile,
    task: Result<Task, CliError>,
    config: Config,
    dir: String,
)
    requires
        call_ensures(run, (args, around, ConfigRead::Parsed(file)), task),
        call_ensures(Config::resolve, (&file, around), Ok::<_, ConfigError>(config)),
        call_ensures(
            crate::identity::Config::config_dir,
            (around,),
            Ok::<_, crate::identity::Error>(dir),
        ),
    ensures
        args.command matches Commands::Send(given) ==> (task matches Ok(
            Task::Send { config: c, config_dir, paths },
        ) && c@ == config@ && config_dir@ == dir@ && paths == given.paths),
        args.command matches Commands::Receive(given) ==> (task matches Ok(
            Task::Receive { config: c, code, output },
        ) && c@ == config@ && code == given.code && output == given.output),
        args.command is Cleanup ==> (task matches Ok(Task::Cleanup { config: c }) && c@ == config@),
        args.command matches Commands::Config(given) ==> (given.command is None ==> (task matches Ok(
            Task::Print(_),
        ))),
{
}

/// Asking for a setting, or for all of them, prints what is in effect.
pub proof fn asking_for_settings_prints_them(
    args: Cli,
    around: &Surroundings,
    file: ConfigFile,
    task: Result<Task, CliError>,
    given: Option<&str>,
    text: Result<String, CliError>,
    dir: String,
)
    requires
        call_ensures(run, (args, around, ConfigRead::Parsed(file)), task),
        call_ensures(get, (&file, around, given), text),
        call_ensures(
            crate::identity::Config::config_dir,
            (around,),
            Ok::<_, crate::identity::Error>(dir),
        ),
        args.command matches Commands::Config(asked) && match asked.command {
            Some(ConfigCommands::Get(one)) => match (one.key, given) {
                (Some(key), Some(name)) => key@ == name@,
                (None, None) => true,
                _ => false,
            },
            None => given is None,
            _ => false,
        },
    ensures
        match (task, text) {
            (Ok(Task::Print(printed)), Ok(shown)) => printed@ == shown@,
            (Err(CliError::User(said)), Err(CliError::User(why))) => said@ == why@,
            _ => false,
        },
{
}

/// Configuring saves what was set where the settings live, and prints what was asked for.
pub proof fn configuring_saves_and_prints(
    args: Cli,
    around: &Surroundings,
    file: ConfigFile,
    task: Result<Task, CliError>,
    key: &str,
    value: &str,
    out: Result<(ConfigFile, String), CliError>,
    path: Result<String, ConfigError>,
)
    requires
        call_ensures(run, (args, around, ConfigRead::Parsed(file)), task),
        call_ensures(crate::commands::set, (file, key, value), out),
        call_ensures(ConfigFile::path, (around,), path),
        path is Ok,
        args.command matches Commands::Config(given) && (given.command matches Some(
            ConfigCommands::SetValue(pair),
        ) && pair.key@ == key@ && pair.value@ == value@),
    ensures
        out is Ok <==> task is Ok,
        out matches Ok((changed, text)) ==> (task matches Ok(Task::Save { file: f, path: p, output })
            && f@ == changed@ && p@ == path->Ok_0@ && output@ == text@),
{
}

/// Without a place for the settings, or with a file that cannot be read, no command runs, and the
/// user is told why there are no settings.
pub proof fn no_command_without_settings(
    args: Cli,
    around: &Surroundings,
    read: ConfigRead,
    task: Result<Task, CliError>,
    dir: Result<String, crate::identity::Error>,
    file: Result<ConfigFile, ConfigError>,
    why: String,
)
    requires
        call_ensures(run, (args, around, read), task),
        call_ensures(crate::identity::Config::config_dir, (around,), dir),
        dir is Err || read is Malformed || read is Failed,
        call_ensures(ConfigFile::load, (around, read), file),
        file matches Err(error) ==> call_ensures(ConfigError::to_string, (&error,), why),
    ensures
        file is Err,
        task matches Err(CliError::User(said)) && said@ == why@,
{
}

/// A key that is stored is the key of every later run; anything else that stands there, or nothing,
/// is replaced by the drawn one, which then has to be stored. A file that cannot be read is an
/// error.
pub proof fn a_stored_key_is_kept(
    config_dir: &str,
    read: KeyRead,
    drawn: [u8; 32],
    out: Result<(Identity, bool), crate::identity::Error>,
)
    requires
        call_ensures(Identity::load_or_use, (config_dir, read, drawn), out),
    ensures
        read is Failed <==> out is Err,
        read matches KeyRead::Found(contents) ==> (out matches Ok((identity, fresh)) && (fresh
            <==> contents@.len() != 32) && (!fresh ==> identity@ == contents@) && (fresh
            ==> identity@ == drawn@)),
        read is Missing ==> (out matches Ok((identity, fresh)) && fresh && identity@ == drawn@),
{
}

/// The same holds of a seed that the system draws, whichever it is.
pub proof fn a_stored_key_is_kept_over_a_fresh_one(
    config_dir: &str,
    read: KeyRead,
    out: Result<(Identity, bool), crate::identity::Error>,
)
    requires
        call_ensures(Identity::load_or_create, (config_dir, read), out),
    ensures
        read is Failed <==> out is Err,
        read matches KeyRead::Found(contents) ==> (out matches Ok((identity, fresh)) && (fresh
            <==> contents@.len() != 32) && (!fresh ==> identity@ == contents@)),
        read is Missing ==> (out matches Ok((_, fresh)) && fresh),
        out matches Ok((identity, _)) ==> identity@.len() == 32,
{
}

/// A file is written once it is new: what stands in its way is removed once, and then it is given
/// up.
pub proof fn a_file_in_the_way_is_removed_once(
    first: bool,
    creation: Creation,
    step: CreationStep,
)
    requires
        call_ensures(after_creation, (first, creation), step),
    ensures
        creation is Created <==> step is Write,
        creation is Exists && first <==> step is RemoveAndRetry,
        creation matches Creation::Exists(reason) ==> (!first ==> step == CreationStep::Fail(
            reason,
        )),
        creation matches Creation::Failed(reason) ==> step == CreationStep::Fail(reason),
{
}

/// A key file is treated in the same way.
pub proof fn a_key_file_in_the_way_is_removed_once(
    dir: &str,
    first: bool,
    creation: Creation,
    step: Result<bool, crate::identity::Error>,
)
    requires
        call_ensures(key_creation_step, (dir, first, creation), step),
    ensures
        creation is Created ==> step == Ok::<_, crate::identity::Error>(true),
        creation is Exists && first ==> step == Ok::<_, crate::identity::Error>(false),
        creation is Exists && !first ==> step is Err,
        creation is Failed ==> step is Err,
{
}

/// Whether a text spells a word, each letter in either case.
pub open spec fn spells(text: Seq<char>, word: Seq<char>) -> bool {
    &&& text.len() == word.len()
    &&& forall|i: int|
        0 <= i < text.len() ==> #[trigger] text[i] == word[i] || ('A' <= text[i] <= 'Z'
            && word[i] as u32 == text[i] as u32 + 32)
}

proof fn spelled(text: Seq<char>, word: Seq<char>)
    requires
        forall|i: int| 0 <= i < word.len() ==> 'a' <= #[trigger] word[i] <= 'z',
    ensures
        spells(text, word) <==> ascii_lowercase(text) == word,
{
    let low = ascii_lowercase(text);
    if spells(text, word) {
        assert forall|i: int| 0 <= i < text.len() implies low[i] == word[i] by {
            assert(text[i] == word[i] || 'A' <= text[i] <= 'Z');
            assert('a' <= word[i] <= 'z');
        }
        assert(low =~= word);
    }
    if low == word {
        assert forall|i: int| 0 <= i < text.len() implies #[trigger] text[i] == word[i] || ('A'
            <= text[i] <= 'Z' && word[i] as u32 == text[i] as u32 + 32) by {
            assert(low[i] == ascii_lower(text[i]));
        }
    }
}

/// `public` and `default` stand for the public relays, `disabled`, `off` and `none` for no relay,
/// in any case of letters; no other value is a keyword.
pub proof fn keywords_stand_for_relay_modes(url: &str, mode: Option<RelayMode>)
    requires
        call_ensures(relay_keyword, (url,), mode),
    ensures
        mode == Some(RelayMode::Default) <==> spells(url@, "public"@) || spells(url@, "default"@),
        mode == Some(RelayMode::Disabled) <==> spells(url@, "disabled"@) || spells(url@, "off"@)
            || spells(url@, "none"@),
        mode matches Some(m) ==> m is Default || m is Disabled,
{
    reveal_strlit("public");
    reveal_strlit("default");
    reveal_strlit("disabled");
    reveal_strlit("off");
    reveal_strlit("none");
    spelled(url@, "public"@);
    spelled(url@, "default"@);
    spelled(url@, "disabled"@);
    spelled(url@, "off"@);
    spelled(url@, "none"@);
    assert("public"@.len() == 6 && "default"@.len() == 7 && "disabled"@.len() == 8 && "off"@.len()
        == 3 && "none"@.len() == 4);
}

/// Any other value is a relay of its own exactly if it is a URL that relays speak, and then it is
/// that relay.
pub proof fn a_relay_of_its_own_is_a_url(
    url: &str,
    parsed: Result<String, String>,
    mode: Result<RelayMode, String>,
)
    requires
        call_ensures(custom_relay, (url, parsed), mode),
    ensures
        mode is Ok <==> (parsed matches Ok(scheme) && (scheme@ == "http"@ || scheme@ == "https"@
            || scheme@ == "ws"@ || scheme@ == "wss"@)),
        mode matches Ok(m) ==> (m matches RelayMode::Custom(relay) && relay@ == url@),
        mode matches Err(why) ==> why@ == match parsed {
            Err(reason) => "invalid relay URL "@ + quoted(url@) + ": "@ + reason@,
            Ok(scheme) => "invalid relay URL "@ + quoted(url@) + ": unsupported scheme "@ + quoted(
                scheme@,
            ) + " (expected http, https, ws or wss)"@,
        },
{
}

/// What is configured as a relay is the mode that a keyword stands for, or else the relay at a URL
/// as the URL parser sees it; a configured relay that is neither is reported with the reason. The
/// engine itself takes any URL that parses.
pub proof fn the_configured_relay_is_used(
    url: &str,
    keyword: Option<RelayMode>,
    parsed: Result<String, String>,
    custom: Result<RelayMode, String>,
    mode: Result<RelayMode, String>,
    config: &Config,
    configured: Result<RelayMode, CliError>,
    engine: Result<RelayMode, crate::transfer::engine::Error>,
)
    requires
        call_ensures(relay_keyword, (url,), keyword),
        text_result(parsed) == relay_scheme(url@),
        call_ensures(custom_relay, (url, parsed), custom),
        call_ensures(relay_mode_from_url, (url,), mode),
        config.relay_url@ == url@,
        call_ensures(configured_relay, (config,), configured),
        call_ensures(engine_relay, (url,), engine),
    ensures
        keyword matches Some(m) ==> mode == Ok::<_, String>(m) && configured == Ok::<_, CliError>(
            m,
        ),
        keyword is None ==> match custom {
            Ok(_) => {
                &&& mode matches Ok(RelayMode::Custom(relay)) && relay@ == url@
                &&& configured matches Ok(RelayMode::Custom(relay)) && relay@ == url@
            },
            Err(why) => {
                &&& mode matches Err(said) && said@ == why@
                &&& configured matches Err(CliError::Runtime(said)) && said@ == "无效的中继地址 "@
                    + quoted(url@) + " / "@ + why@
            },
        },
        match parsed {
            Ok(_) => engine matches Ok(RelayMode::Custom(relay)) && relay@ == url@,
            Err(why) => engine matches Err(
                crate::transfer::engine::Error::RelayUrl { url: given, source },
            ) && given@ == url@ && source@ == why@,
        },
{
}

/// The blobs are kept below the data dir; a file in the place of either is in the way and is named.
pub proof fn the_blobs_are_kept_below_the_data_dir(
    data_dir: &str,
    at_data_dir: Standing,
    at_blobs: Standing,
    dir: Result<String, crate::transfer::engine::Error>,
)
    requires
        call_ensures(store_dir, (data_dir, at_data_dir, at_blobs), dir),
    ensures
        dir is Ok <==> !(at_data_dir is NotDirectory) && !(at_blobs is NotDirectory),
        dir matches Ok(d) ==> d@ == joined(data_dir@, "blobs"@),
        dir matches Err(error) ==> (error
            matches crate::transfer::engine::Error::DataDirNotDirectory { path } && path@
            == if at_data_dir is NotDirectory {
            data_dir@
        } else {
            joined(data_dir@, "blobs"@)
        }),
{
}

/// A configuration is written beside its place first, under a hidden name that names the file and
/// the process.
pub proof fn a_configuration_is_written_beside_its_place(
    dir: &str,
    name: &str,
    pid: u32,
    path: String,
    process: String,
)
    requires
        call_ensures(temporary_config_path, (dir, name, pid), path),
        call_ensures(decimal_string, (pid as u64,), process),
    ensures
        path@ == joined(dir@, "."@ + name@ + "."@ + process@ + ".tmp"@),
{
}

/// More `-v` log more, and only up to three levels.
pub proof fn more_verbose_logs_more(verbose: u8, level: LogLevel)
    requires
        call_ensures(log_level, (verbose,), level),
    ensures
        level is Warn <==> verbose == 0,
        level is Info <==> verbose == 1,
        level is Debug <==> verbose >= 2,
{
}

/// Help is no error, a wrong command line is the user's, like every mistake of theirs, and a
/// failure at run time is told apart.
pub proof fn exit_codes_tell_whose_error_it_is(
    to_stderr: bool,
    parse: u8,
    error: &CliError,
    code: u8,
)
    requires
        call_ensures(parse_error_code, (to_stderr,), parse),
        call_ensures(CliError::exit_code, (error,), code),
    ensures
        parse == 0 <==> !to_stderr,
        to_stderr ==> parse == 1,
        error is User ==> code == 1,
        error is Runtime ==> code == 2,
{
}

/// The roles have directories of their own in the data dir: `send` and `receive`.
pub proof fn each_role_has_its_directory(base: &str, sending: String, receiving: String)
    requires
        call_ensures(role_data_dir, (base, Role::Send), sending),
        call_ensures(role_data_dir, (base, Role::Receive), receiving),
        base@.len() > 0,
        base@.last() != '/',
    ensures
        sending@ == base@ + "/send"@,
        receiving@ == base@ + "/receive"@,
{
    reveal_strlit("send");
    reveal_strlit("/send");
    reveal_strlit("receive");
    reveal_strlit("/receive");
    assert(sending@ =~= base@ + "/send"@);
    assert(receiving@ =~= base@ + "/receive"@);
}

/// Bad paths are the user's, and so are a code that is missing or malformed and words that do not
/// match; everything else that goes wrong in a transfer is not.
pub proof fn the_user_is_told_what_is_theirs(
    sending: SendError,
    sent: CliError,
    receiving: RecvError,
    received: CliError,
)
    requires
        call_ensures(<CliError as From<SendError>>::from, (sending,), sent),
        call_ensures(<CliError as From<RecvError>>::from, (receiving,), received),
    ensures
        sent is User <==> sending is Prepare,
        received is User <==> receiving is Word || receiving is NoCode || receiving
            == RecvError::Pair(
            crate::wire::PairError::Spake(
                crate::pairing::spake::SpakeError::ConfirmationMismatch,
            ),
        ),
{
}

/// The key file stands in the settings' directory, and is written beside its place first.
pub proof fn the_key_file_stands_in_the_directory(
    dir: &str,
    path: String,
    pid: u32,
    beside: String,
    process: String,
)
    requires
        call_ensures(Identity::key_path, (dir,), path),
        call_ensures(temporary_key_path, (dir, pid), beside),
        call_ensures(decimal_string, (pid as u64,), process),
        dir@.len() > 0,
        dir@.last() != '/',
    ensures
        path@ == dir@ + "/key.bin"@,
        beside@ == dir@ + "/.key.bin."@ + process@ + ".tmp"@,
{
    reveal_strlit("key.bin");
    reveal_strlit("/key.bin");
    reveal_strlit(".key.bin.");
    reveal_strlit("/.key.bin.");
    assert(path@ =~= dir@ + "/key.bin"@);
    assert(beside@ =~= dir@ + "/.key.bin."@ + process@ + ".tmp"@);
}

} // verus!
