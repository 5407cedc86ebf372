//! What each command does, and what it says at the end.
//!
//! [`run`] decides on the work from the arguments, the surroundings and the configuration file;
//! what it returns says what is left to carry out.
use vstd::prelude::*;

use crate::cli::{Cli, Commands, ConfigArgs, ConfigCommands};
use crate::config::{
    config_error_text, file_read, in_effect, load_fails, set_fails, settable, truth, truth_text,
    Config, ConfigError, ConfigFile, ConfigRead, Effective, FileView, CONFIG_FILE,
};
use crate::error::CliError;
use crate::identity::{config_dir_of, Surroundings};
use crate::receive::ReceiveOutcome;
use crate::relay::{keyword_mode, relay_mode_from_url, relay_scheme, relay_url_fault, RelayMode};
use crate::send::SendOutcome;
use crate::text::{ascii_lowercase, decimal, decimal_string, quote, quoted, trimmed};
use crate::transfer::paths::{join_path, joined};
use crate::transfer::record::joined_is_injective;
use crate::ui::{human_bytes, human_text};
use crate::wire::FLOW_TIMEOUT;

verus! {

broadcast use vstd::string::group_string_axioms;

/// Which role this process plays; each role owns a private engine data dir.
#[derive(Debug, Clone, Copy, PartialEq, Eq, Structural)]
pub enum Role {
    Send,
    Receive,
}

impl Role {
    /// The name of the role, and of its directory.
    pub open spec fn name(self) -> Seq<char> {
        match self {
            Role::Send => "send"@,
            Role::Receive => "receive"@,
        }
    }

    /// The Chinese name of the role.
    pub open spec fn chinese(self) -> Seq<char> {
        match self {
            Role::Send => "发送"@,
            Role::Receive => "接收"@,
        }
    }

    /// The name of the role's directory.
    pub fn dir_name(self) -> (name: &'static str)
        ensures
            name@ == self.name(),
    {
        match self {
            Role::Send => "send",
            Role::Receive => "receive",
        }
    }

    /// The Chinese label of the role, for bilingual output.
    pub fn label(self) -> (label: &'static str)
        ensures
            label@ == self.chinese(),
    {
        match self {
            Role::Send => "发送",
            Role::Receive => "接收",
        }
    }
}

/// The engine data dir for `role`: a subdirectory of the configured one. A blob store belongs to
/// one process at a time, so a sender and a receiver on one machine must never open the same one.
pub fn role_data_dir(base: &str, role: Role) -> (dir: String)
    ensures
        dir@ == joined(base@, role.name()),
{
    join_path(base, role.dir_name())
}

/// The roles never share a data dir.
pub proof fn role_dirs_are_private(base: Seq<char>, a: Role, b: Role)
    requires
        a != b,
    ensures
        joined(base, a.name()) != joined(base, b.name()),
{
    reveal_strlit("send");
    reveal_strlit("receive");
    assert("send"@.len() == 4 && "receive"@.len() == 7);
    if joined(base, a.name()) == joined(base, b.name()) {
        joined_is_injective(base, a.name(), b.name());
    }
}

/// What is left to carry out of a command.
#[derive(Debug)]
pub enum Task {
    /// Print a text.
    Print(String),
    /// Write the configuration file, and then print a text.
    Save { file: ConfigFile, path: String, output: String },
    /// Send files or directories, with the identity below `config_dir`.
    Send { config: Config, config_dir: String, paths: Vec<String> },
    /// Receive files.
    Receive { config: Config, code: Option<String>, output: Option<String> },
    /// Clear the blob caches of both roles.
    Cleanup { config: Config },
}

/// Whether an error of the command line reports that there is no configuration.
pub open spec fn reports_load_failure(
    around: Surroundings,
    read: ConfigRead,
    error: CliError,
) -> bool {
    error is User && exists|e: ConfigError|
        #[trigger] load_fails(around, read, e) && error.message() == config_error_text(e)
}

/// The whole configuration, as it is shown.
pub open spec fn all_settings(config: Effective) -> Seq<char> {
    "rendezvous_url = \""@ + config.rendezvous_url + "\"\nrelay_url = \""@ + config.relay_url
        + "\"\ndata_dir = \""@ + config.data_dir + "\"\noverwrite = "@ + truth_text(
        config.overwrite,
    ) + "\n"@
}

/// What is printed of a configuration: the value of one key, or everything.
pub open spec fn printed(config: Effective, key: Option<Seq<char>>) -> Option<Seq<char>> {
    match key {
        Some(key) => match config.value_of(key) {
            Some(value) => Some(value + "\n"@),
            None => None,
        },
        None => Some(all_settings(config)),
    }
}

/// Whether an error of the command line reports an unknown key.
pub open spec fn reports_unknown_key(key: Seq<char>, error: CliError) -> bool {
    error is User && exists|k: String|
        #[trigger] k@ == key && error.message() == config_error_text(ConfigError::InvalidKey(k))
}

/// Whether an error of the command line reports that a key cannot be set so.
pub open spec fn reports_set_failure(
    key: Seq<char>,
    value: Seq<char>,
    error: CliError,
) -> bool {
    error is User && exists|e: ConfigError|
        #[trigger] set_fails(key, value, e) && error.message() == config_error_text(e)
}

/// The configuration file.
fn load_file(around: &Surroundings, read: ConfigRead) -> (out: Result<(ConfigFile, String), CliError>)
    ensures
        match out {
            Ok((file, path)) => config_dir_of(*around) is Some && path@ == joined(
                config_dir_of(*around)->0,
                CONFIG_FILE@,
            ) && file_read(read) == Some(file@),
            Err(error) => reports_load_failure(*around, read, error) && (config_dir_of(
                *around,
            ) is None || file_read(read) is None),
        },
{
    let ghost given = read;
    let file = match ConfigFile::load(around, read) {
        Ok(file) => file,
        Err(error) => {
            assert(load_fails(*around, given, error));
            return Err(CliError::from(error));
        },
    };
    match ConfigFile::path(around) {
        Ok(path) => Ok((file, path)),
        Err(error) => Err(CliError::from(error)),
    }
}

/// The settings in effect.
fn load_settings(around: &Surroundings, read: ConfigRead) -> (config: Result<Config, CliError>)
    ensures
        match config {
            Ok(config) => file_read(read) is Some && in_effect(file_read(read)->0, *around)
                == Some(config@),
            Err(error) => reports_load_failure(*around, read, error) && (config_dir_of(
                *around,
            ) is None || file_read(read) is None),
        },
{
    let ghost given = read;
    match Config::load(around, read) {
        Ok(config) => Ok(config),
        Err(error) => {
            assert(load_fails(*around, given, error));
            Err(CliError::from(error))
        },
    }
}

/// `config get [KEY]`: the settings in effect, which need not be what the file says.
pub fn get(file: &ConfigFile, around: &Surroundings, key: Option<&str>) -> (text: Result<
    String,
    CliError,
>)
    ensures
        match (in_effect(file@, *around), text) {
            (Some(config), Ok(text)) => match key {
                Some(key) => printed(config, Some(key@)) == Some(text@),
                None => printed(config, None) == Some(text@),
            },
            (Some(config), Err(error)) => key matches Some(key) && config.value_of(key@) is None
                && reports_unknown_key(key@, error),
            (None, Err(error)) => error is User && error.message() == config_error_text(
                ConfigError::NoConfigDir(crate::identity::Error::ConfigDirNotFound),
            ),
            (None, Ok(_)) => false,
        },
{
    let config = match Config::resolve(file, around) {
        Ok(config) => config,
        Err(error) => return Err(CliError::from(error)),
    };
    match key {
        Some(key) => match config.field(key) {
            Ok(value) => Ok(value.concat("\n")),
            Err(error) => Err(CliError::from(error)),
        },
        None => Ok(
            "rendezvous_url = \"".to_owned().concat(config.rendezvous_url.as_str()).concat(
                "\"\nrelay_url = \"",
            ).concat(config.relay_url.as_str()).concat("\"\ndata_dir = \"").concat(
                config.data_dir.as_str(),
            ).concat("\"\noverwrite = ").concat(truth(config.overwrite)).concat("\n"),
        ),
    }
}

/// `config set KEY VALUE`: the changed file, and the line that echoes what was stored.
pub fn set(file: ConfigFile, key: &str, value: &str) -> (out: Result<(ConfigFile, String), CliError>)
    ensures
        match out {
            Ok((changed, output)) => {
                &&& settable(key@, value@)
                &&& changed@ == file@.with(key@, trimmed(value@))
                &&& output@ == key@ + " = "@ + trimmed(value@) + "\n"@
            },
            Err(error) => !settable(key@, value@) && reports_set_failure(key@, value@, error),
        },
{
    let mut file = file;
    match file.set(key, value) {
        Ok(stored) => {
            let output = key.to_owned().concat(" = ").concat(stored.as_str()).concat("\n");
            Ok((file, output))
        },
        Err(error) => {
            assert(set_fails(key@, value@, error));
            Err(CliError::from(error))
        },
    }
}

/// The key that a command line names.
pub open spec fn named_key(key: Option<String>) -> Option<Seq<char>> {
    match key {
        Some(key) => Some(key@),
        None => None,
    }
}

/// What a `config` command comes to, given the file and its path.
pub open spec fn config_task(
    args: ConfigArgs,
    file: FileView,
    path: Seq<char>,
    around: Surroundings,
    task: Result<Task, CliError>,
) -> bool {
    let config = in_effect(file, around)->0;
    match args.command {
        Some(ConfigCommands::SetValue(args)) => match task {
            Ok(Task::Save { file: changed, path: p, output }) => {
                &&& settable(args.key@, args.value@)
                &&& changed@ == file.with(args.key@, trimmed(args.value@))
                &&& p@ == path
                &&& output@ == args.key@ + " = "@ + trimmed(args.value@) + "\n"@
            },
            Ok(_) => false,
            Err(error) => !settable(args.key@, args.value@) && reports_set_failure(
                args.key@,
                args.value@,
                error,
            ),
        },
        Some(ConfigCommands::Get(args)) => match task {
            Ok(Task::Print(text)) => printed(config, named_key(args.key)) == Some(text@),
            Ok(_) => false,
            Err(error) => args.key matches Some(key) && config.value_of(key@) is None
                && reports_unknown_key(key@, error),
        },
        None => task matches Ok(Task::Print(text)) && text@ == all_settings(config),
    }
}

fn config(args: ConfigArgs, file: ConfigFile, path: String, around: &Surroundings) -> (task: Result<
    Task,
    CliError,
>)
    requires
        config_dir_of(*around) is Some,
    ensures
        config_task(args, file@, path@, *around, task),
{
    match args.command {
        Some(ConfigCommands::Get(args)) => {
            let text = match &args.key {
                Some(key) => get(&file, around, Some(key.as_str())),
                None => get(&file, around, None),
            };
            match text {
                Ok(text) => Ok(Task::Print(text)),
                Err(error) => Err(error),
            }
        },
        Some(ConfigCommands::SetValue(args)) => {
            match set(file, args.key.as_str(), args.value.as_str()) {
                Ok((file, output)) => Ok(Task::Save { file, path, output }),
                Err(error) => Err(error),
            }
        },
        None => match get(&file, around, None) {
            Ok(text) => Ok(Task::Print(text)),
            Err(error) => Err(error),
        },
    }
}

/// Runs the parsed command line as far as that takes no more than the configuration: every command
/// needs one.
pub fn run(args: Cli, around: &Surroundings, read: ConfigRead) -> (task: Result<Task, CliError>)
    ensures
        match (config_dir_of(*around), file_read(read)) {
            (Some(dir), Some(file)) => match args.command {
                Commands::Send(args) => task matches Ok(Task::Send { config, config_dir, paths })
                    && in_effect(file, *around) == Some(config@) && config_dir@ == dir && paths
                    == args.paths,
                Commands::Receive(args) => task matches Ok(Task::Receive { config, code, output })
                    && in_effect(file, *around) == Some(config@) && code == args.code && output
                    == args.output,
                Commands::Cleanup => task matches Ok(Task::Cleanup { config }) && in_effect(
                    file,
                    *around,
                ) == Some(config@),
                Commands::Config(args) => config_task(
                    args,
                    file,
                    joined(dir, CONFIG_FILE@),
                    *around,
                    task,
                ),
            },
            _ => task matches Err(error) && reports_load_failure(*around, read, error),
        },
{
    match args.command {
        Commands::Config(args) => match load_file(around, read) {
            Ok((file, path)) => config(args, file, path, around),
            Err(error) => Err(error),
        },
        Commands::Send(args) => {
            let config = match load_settings(around, read) {
                Ok(config) => config,
                Err(error) => return Err(error),
            };
            match crate::identity::Config::config_dir(around) {
                Ok(config_dir) => Ok(Task::Send { config, config_dir, paths: args.paths }),
                Err(error) => Err(CliError::from(error)),
            }
        },
        Commands::Receive(args) => match load_settings(around, read) {
            Ok(config) => Ok(Task::Receive { config, code: args.code, output: args.output }),
            Err(error) => Err(error),
        },
        Commands::Cleanup => match load_settings(around, read) {
            Ok(config) => Ok(Task::Cleanup { config }),
            Err(error) => Err(error),
        },
    }
}

/// The relay that a configuration names.
pub fn configured_relay(config: &Config) -> (mode: Result<RelayMode, CliError>)
    ensures
        match keyword_mode(ascii_lowercase(config.relay_url@)) {
            Some(keyword) => mode == Ok::<_, CliError>(keyword),
            None => match relay_url_fault(config.relay_url@, relay_scheme(config.relay_url@)) {
                None => mode matches Ok(RelayMode::Custom(url)) && url@ == config.relay_url@,
                Some(fault) => mode matches Err(error) && error is Runtime && error.message()
                    == "无效的中继地址 "@ + quoted(config.relay_url@) + " / "@ + fault,
            },
        },
{
    match relay_mode_from_url(config.relay_url.as_str()) {
        Ok(mode) => Ok(mode),
        Err(fault) => Err(
            CliError::Runtime(
                "无效的中继地址 ".to_owned().concat(quote(config.relay_url.as_str()).as_str()).concat(
                    " / ",
                ).concat(fault.as_str()),
            ),
        ),
    }
}

/// The line on a transfer that is complete.
pub open spec fn complete_text(files: nat, bytes: u64, skipped: nat) -> Seq<char> {
    let line = "传输完成："@ + decimal(files) + " 个文件，"@ + human_text(bytes as int)
        + " / Transfer complete: "@ + decimal(files) + " files, "@ + human_text(bytes as int)
        + "\n"@;
    if skipped > 0 {
        line + "（跳过 "@ + decimal(skipped) + " 个已存在文件 / skipped "@ + decimal(skipped)
            + " existing files）\n"@
    } else {
        line
    }
}

fn complete_line(files: u64, bytes: u64, skipped: u64) -> (text: String)
    ensures
        text@ == complete_text(files as nat, bytes, skipped as nat),
{
    let size = human_bytes(bytes);
    let count = decimal_string(files);
    let line = "传输完成：".to_owned().concat(count.as_str()).concat(" 个文件，").concat(
        size.as_str(),
    ).concat(" / Transfer complete: ").concat(count.as_str()).concat(" files, ").concat(
        size.as_str(),
    ).concat("\n");
    if skipped > 0 {
        let count = decimal_string(skipped);
        line.concat("（跳过 ").concat(count.as_str()).concat(" 个已存在文件 / skipped ").concat(
            count.as_str(),
        ).concat(" existing files）\n")
    } else {
        line
    }
}

/// What is printed at the end of a send.
pub fn send_summary(outcome: &SendOutcome) -> (text: String)
    ensures
        text@ == match outcome {
            SendOutcome::Completed { bytes, files, skipped_bytes, skipped_files } => complete_text(
                *files as nat,
                *bytes,
                *skipped_files as nat,
            ),
            SendOutcome::Declined { reason } => "接收方已拒绝："@ + reason@
                + " / Receiver declined: "@ + reason@ + "\n"@,
            SendOutcome::Cancelled => "已取消 / Cancelled\n"@,
        },
{
    match outcome {
        SendOutcome::Completed { bytes, files, skipped_bytes: _, skipped_files } => complete_line(
            *files as u64,
            *bytes,
            *skipped_files as u64,
        ),
        SendOutcome::Declined { reason } => "接收方已拒绝：".to_owned().concat(
            reason.as_str(),
        ).concat(" / Receiver declined: ").concat(reason.as_str()).concat("\n"),
        SendOutcome::Cancelled => "已取消 / Cancelled\n".to_owned(),
    }
}

/// What is printed at the end of a receive.
pub fn receive_summary(outcome: &ReceiveOutcome) -> (text: String)
    ensures
        text@ == match outcome {
            ReceiveOutcome::Completed { bytes, files, skipped_files } => complete_text(
                *files as nat,
                *bytes,
                *skipped_files as nat,
            ),
            ReceiveOutcome::Declined => "已拒绝 / Declined\n"@,
            ReceiveOutcome::Cancelled => "已取消 / Cancelled\n"@,
        },
{
    match outcome {
        ReceiveOutcome::Completed { bytes, files, skipped_files } => complete_line(
            *files as u64,
            *bytes,
            *skipped_files as u64,
        ),
        ReceiveOutcome::Declined => "已拒绝 / Declined\n".to_owned(),
        ReceiveOutcome::Cancelled => "已取消 / Cancelled\n".to_owned(),
    }
}

/// The line on a cleared cache.
pub open spec fn cleared_text(role: Role, count: nat) -> Seq<char> {
    "已清空"@ + role.chinese() + "缓存 "@ + decimal(count) + " 个 blob / Cleared "@ + role.name()
        + " cache ("@ + decimal(count) + " blobs)"@
}

fn cleared_line(role: Role, count: usize) -> (text: String)
    ensures
        text@ == cleared_text(role, count as nat),
{
    let count = decimal_string(count as u64);
    "已清空".to_owned().concat(role.label()).concat("缓存 ").concat(count.as_str()).concat(
        " 个 blob / Cleared ",
    ).concat(role.dir_name()).concat(" cache (").concat(count.as_str()).concat(" blobs)")
}

/// What is printed once the caches are cleared, given the number of blobs that each held.
pub fn cleanup_report(sent: usize, received: usize) -> (text: String)
    ensures
        text@ == cleared_text(Role::Send, sent as nat) + "\n"@ + cleared_text(
            Role::Receive,
            received as nat,
        ),
{
    cleared_line(Role::Send, sent).concat("\n").concat(
        cleared_line(Role::Receive, received).as_str(),
    )
}

/// A step of clearing the cache of a role.
#[derive(Debug, Clone, Copy, PartialEq, Eq, Structural)]
pub enum CleanupStep {
    Open,
    Count,
    Clear,
    ShutDown,
}

/// The sentence on a step of a cleanup that failed.
pub open spec fn cleanup_fault_text(role: Role, step: CleanupStep, source: Seq<char>) -> Seq<char> {
    match step {
        CleanupStep::Open => "无法打开 "@ + role.name() + " 角色的缓存 / failed to open "@
            + role.name() + " role cache: "@ + source,
        CleanupStep::Count => "无法读取 "@ + role.name() + " 角色的缓存 / failed to read "@
            + role.name() + " role cache: "@ + source,
        CleanupStep::Clear => "无法清空 "@ + role.name()
            + " 角色的缓存，请确认没有进行中的传输后重试（Windows 下文件被占用会失败）/ failed to clear "@
            + role.name()
            + " role cache, retry after closing any active transfer (Windows may fail while files are in use): "@
            + source,
        CleanupStep::ShutDown => "无法关闭 "@ + role.name()
            + " 角色的引擎 / failed to shut down "@ + role.name() + " role engine: "@ + source,
    }
}

/// The error on a step of a cleanup that failed.
pub fn cleanup_failure(role: Role, step: CleanupStep, source: &str) -> (error: CliError)
    ensures
        error is Runtime,
        error.message() == cleanup_fault_text(role, step, source@),
{
    let name = role.dir_name();
    CliError::Runtime(
        match step {
            CleanupStep::Open => "无法打开 ".to_owned().concat(name).concat(
                " 角色的缓存 / failed to open ",
            ).concat(name).concat(" role cache: ").concat(source),
            CleanupStep::Count => "无法读取 ".to_owned().concat(name).concat(
                " 角色的缓存 / failed to read ",
            ).concat(name).concat(" role cache: ").concat(source),
            CleanupStep::Clear => "无法清空 ".to_owned().concat(name).concat(
                " 角色的缓存，请确认没有进行中的传输后重试（Windows 下文件被占用会失败）/ failed to clear ",
            ).concat(name).concat(
                " role cache, retry after closing any active transfer (Windows may fail while files are in use): ",
            ).concat(source),
            CleanupStep::ShutDown => "无法关闭 ".to_owned().concat(name).concat(
                " 角色的引擎 / failed to shut down ",
            ).concat(name).concat(" role engine: ").concat(source),
        },
    )
}

/// A failure to set a command going, or to bring it to its end in time.
#[derive(Debug)]
pub enum Breakdown {
    /// The asynchronous runtime did not start.
    Runtime(String),
    /// The transfer engine did not start.
    Engine(String),
    /// The relay at this URL could not be contacted in time.
    Relay(String),
    /// The whole flow took too long.
    Flow,
}

/// The sentence on a breakdown.
pub open spec fn breakdown_text(breakdown: Breakdown) -> Seq<char> {
    match breakdown {
        Breakdown::Runtime(source) => "无法启动异步运行时 / failed to start async runtime: "@
            + source@,
        Breakdown::Engine(source) => "无法启动传输引擎 / failed to start transfer engine: "@
            + source@,
        Breakdown::Relay(url) => "连接中继服务器超时（15 秒） / timed out contacting relay server "@
            + url@ + " after 15s"@,
        Breakdown::Flow => "传输流程超过 "@ + decimal(FLOW_TIMEOUT as nat)
            + " 秒上限 / flow exceeded the "@ + decimal(FLOW_TIMEOUT as nat) + "s limit"@,
    }
}

/// The error on a breakdown: none is the user's.
pub fn breakdown_error(breakdown: Breakdown) -> (error: CliError)
    ensures
        error is Runtime,
        error.message() == breakdown_text(breakdown),
{
    CliError::Runtime(
        match breakdown {
            Breakdown::Runtime(source) => {
                "无法启动异步运行时 / failed to start async runtime: ".to_owned().concat(
                    source.as_str(),
                )
            },
            Breakdown::Engine(source) => {
                "无法启动传输引擎 / failed to start transfer engine: ".to_owned().concat(
                    source.as_str(),
                )
            },
            Breakdown::Relay(url) => {
                "连接中继服务器超时（15 秒） / timed out contacting relay server ".to_owned().concat(
                    url.as_str(),
                ).concat(" after 15s")
            },
            Breakdown::Flow => {
                let limit = decimal_string(FLOW_TIMEOUT);
                "传输流程超过 ".to_owned().concat(limit.as_str()).concat(
                    " 秒上限 / flow exceeded the ",
                ).concat(limit.as_str()).concat("s limit")
            },
        },
    )
}

} // verus!
