//! Settings, identity, relay and the command layer.
use worddrop::cli::{
    crate_version, log_level, parse_error_code, Cli, Commands, ConfigArgs, ConfigCommands, GetArgs,
    LogLevel, ReceiveArgs, SendArgs, SetArgs,
};
use worddrop::commands::{
    self, breakdown_error, cleanup_failure, cleanup_report, configured_relay, receive_summary,
    role_data_dir, send_summary, Breakdown, CleanupStep, Role, Task,
};
use worddrop::config::{
    temporary_config_path, Config, ConfigError, ConfigFile, ConfigRead, CONFIG_FILE,
};
use worddrop::error::CliError;
use worddrop::identity::{
    self, key_creation_step, temporary_key_path, Identity, KeyRead, Surroundings,
    DEFAULT_RELAY_URL, DEFAULT_RENDEZVOUS_URL,
};
use worddrop::pairing::spake::SpakeError;
use worddrop::pairing::wordcode::WordCode;
use worddrop::receive::{ReceiveOutcome, RecvError};
use worddrop::relay::{custom_relay, engine_relay, relay_keyword, relay_mode_from_url, RelayMode};
use worddrop::send::{SendError, SendOutcome};
use worddrop::transfer::engine::Error as EngineError;
use worddrop::transfer::record::Creation;
use worddrop::wire::PairError;

/// Surroundings with nothing set but the platform's directory.
fn plain() -> Surroundings {
    Surroundings {
        config_dir: None,
        data_dir: None,
        rendezvous_url: None,
        relay_url: None,
        platform_dir: Some("/home/u/.config".to_string()),
    }
}

/// Surroundings with the config dir overridden.
fn with_config_dir(dir: &str) -> Surroundings {
    Surroundings { config_dir: Some(dir.to_string()), ..plain() }
}

fn full_file() -> ConfigFile {
    ConfigFile {
        rendezvous_url: Some("http://rv.example:8080".to_string()),
        relay_url: Some("http://relay.example:3340".to_string()),
        data_dir: Some("/tmp/my-croc-data".to_string()),
        overwrite: Some(true),
    }
}

fn cli_with(command: Commands) -> Cli {
    Cli { verbose: 0, command }
}

fn get_cmd(key: Option<&str>) -> Commands {
    Commands::Config(ConfigArgs {
        command: Some(ConfigCommands::Get(GetArgs { key: key.map(str::to_string) })),
    })
}

fn set_cmd(key: &str, value: &str) -> Commands {
    Commands::Config(ConfigArgs {
        command: Some(ConfigCommands::SetValue(SetArgs {
            key: key.to_string(),
            value: value.to_string(),
        })),
    })
}

fn printed(task: Result<Task, CliError>) -> String {
    match task {
        Ok(Task::Print(text)) => text,
        other => panic!("expected a text, got {other:?}"),
    }
}

#[test]
fn config_set_then_get_roundtrip() {
    let around = with_config_dir("/tmp/conf");
    let set = commands::run(
        cli_with(set_cmd("relay_url", "http://relay.example:3340")),
        &around,
        ConfigRead::Missing,
    );
    let file = match set.expect("set ok") {
        Task::Save { file, path, output } => {
            assert_eq!(output, "relay_url = http://relay.example:3340\n");
            assert_eq!(path, "/tmp/conf/config.toml");
            file
        }
        other => panic!("expected a file to save, got {other:?}"),
    };
    assert_eq!(file.relay_url.as_deref(), Some("http://relay.example:3340"));

    let get = commands::run(
        cli_with(get_cmd(Some("relay_url"))),
        &around,
        ConfigRead::Parsed(file),
    );
    assert_eq!(printed(get), "http://relay.example:3340\n");
}

#[test]
fn config_get_all_prints_effective_values() {
    let mut file = ConfigFile::default();
    file.set("overwrite", "true").expect("set");
    let around = with_config_dir("/tmp/conf");
    let out = printed(commands::run(
        cli_with(get_cmd(None)),
        &around,
        ConfigRead::Parsed(file.clone()),
    ));
    assert!(out.contains(&format!("rendezvous_url = \"{DEFAULT_RENDEZVOUS_URL}\"")));
    assert!(out.contains("overwrite = true"));
    assert_eq!(
        out,
        "rendezvous_url = \"mqtts://broker.emqx.io:8883\"\nrelay_url = \"public\"\n\
         data_dir = \"/tmp/conf\"\noverwrite = true\n"
    );
    let bare = Commands::Config(ConfigArgs { command: None });
    assert_eq!(printed(commands::run(cli_with(bare), &around, ConfigRead::Parsed(file))), out);
}

#[test]
fn config_set_invalid_value_is_user_error() {
    let err = commands::run(
        cli_with(set_cmd("overwrite", "maybe")),
        &plain(),
        ConfigRead::Missing,
    )
    .expect_err("invalid bool must fail");
    assert!(matches!(err, CliError::User(_)));
}

#[test]
fn config_set_unknown_key_is_user_error() {
    let err = commands::run(cli_with(set_cmd("bogus", "x")), &plain(), ConfigRead::Missing)
        .expect_err("unknown key must fail");
    assert!(matches!(err, CliError::User(_)));
}

#[test]
fn config_get_unknown_key_is_user_error() {
    let err = commands::run(cli_with(get_cmd(Some("bogus"))), &plain(), ConfigRead::Missing)
        .expect_err("unknown key must fail");
    assert!(matches!(err, CliError::User(_)));
}

#[test]
fn config_invalid_toml_surfaces_as_user_error() {
    let err = commands::run(
        cli_with(get_cmd(None)),
        &plain(),
        ConfigRead::Malformed("invalid array".to_string()),
    )
    .expect_err("broken toml must fail");
    assert!(matches!(err, CliError::User(_)));
    assert!(err.to_string().contains("/home/u/.config/worddrop/config.toml"));
    assert!(err.to_string().contains("invalid array"));
}

#[test]
fn every_command_needs_a_configuration() {
    let nowhere = Surroundings { platform_dir: None, ..plain() };
    for command in [
        Commands::Send(SendArgs { paths: vec!["a".to_string()] }),
        Commands::Receive(ReceiveArgs { code: None, output: None }),
        Commands::Cleanup,
        get_cmd(None),
    ] {
        let err = commands::run(cli_with(command.clone()), &nowhere, ConfigRead::Missing)
            .expect_err("no config dir");
        assert_eq!(err.exit_code(), 1);
        let err = commands::run(
            cli_with(command),
            &plain(),
            ConfigRead::Failed("denied".to_string()),
        )
        .expect_err("unreadable");
        assert!(err.to_string().contains("denied"));
    }
}

#[test]
fn commands_carry_their_arguments_and_the_settings() {
    let around = with_config_dir("/tmp/conf");
    let send = Commands::Send(SendArgs { paths: vec!["a".to_string(), "b".to_string()] });
    match commands::run(cli_with(send), &around, ConfigRead::Parsed(full_file())) {
        Ok(Task::Send { config, config_dir, paths }) => {
            assert_eq!(config.rendezvous_url, "http://rv.example:8080");
            assert_eq!(config_dir, "/tmp/conf");
            assert_eq!(paths, vec!["a", "b"]);
        }
        other => panic!("{other:?}"),
    }
    let receive = Commands::Receive(ReceiveArgs {
        code: Some("7-a-b-c".to_string()),
        output: Some("out".to_string()),
    });
    match commands::run(cli_with(receive), &around, ConfigRead::Parsed(full_file())) {
        Ok(Task::Receive { config, code, output }) => {
            assert!(config.overwrite);
            assert_eq!(code.as_deref(), Some("7-a-b-c"));
            assert_eq!(output.as_deref(), Some("out"));
        }
        other => panic!("{other:?}"),
    }
    match commands::run(cli_with(Commands::Cleanup), &around, ConfigRead::Missing) {
        Ok(Task::Cleanup { config }) => assert_eq!(config.data_dir, "/tmp/conf"),
        other => panic!("{other:?}"),
    }
}

#[test]
fn recv_error_user_vs_runtime_mapping() {
    let cli: CliError = RecvError::NoCode.into();
    assert!(matches!(cli, CliError::User(_)), "no-code should be user error, got {cli:?}");

    let cli: CliError =
        RecvError::Pair(PairError::Spake(SpakeError::ConfirmationMismatch)).into();
    assert!(matches!(cli, CliError::User(_)), "wrong-words should be user error, got {cli:?}");

    let cli: CliError = RecvError::RelayHung.into();
    assert!(
        matches!(cli, CliError::Runtime(_)),
        "relay-hung should be runtime error, got {cli:?}"
    );

    let cli: CliError = RecvError::Hung("something").into();
    assert!(matches!(cli, CliError::Runtime(_)), "hung should be runtime error, got {cli:?}");

    let cli: CliError = RecvError::Pair(PairError::Hung("peer")).into();
    assert!(matches!(cli, CliError::Runtime(_)));
    let cli: CliError = RecvError::Word(WordCode::split("7").unwrap_err()).into();
    assert!(matches!(cli, CliError::User(_)));
}

#[test]
fn recv_error_display_and_source() {
    let err = RecvError::Ticket("bad".to_string());
    assert!(err.to_string().contains("invalid ticket"));

    let err = RecvError::Word(WordCode::split("bad").unwrap_err());
    assert!(err.to_string().contains("word-code error"));
}

#[test]
fn send_errors_are_runtime_but_for_the_inputs() {
    let missing =
        worddrop::transfer::send::SendError::MissingSource { path: "/nope".to_string() };
    let cli: CliError = SendError::Prepare(missing.clone()).into();
    assert_eq!(cli.exit_code(), 1);
    assert_eq!(cli.to_string(), missing.to_string());
    let cli: CliError = SendError::AcceptorClosed.into();
    assert_eq!(cli.exit_code(), 2);
    assert_eq!(
        cli.to_string(),
        "control acceptor closed before any receiver dialed in"
    );
    assert_eq!(CliError::user("u".to_string()).exit_code(), 1);
    assert_eq!(CliError::runtime("r".to_string()).exit_code(), 2);
    let cli: CliError = identity::Error::ConfigDirNotFound.into();
    assert_eq!(cli.exit_code(), 1);
}

#[test]
fn role_data_dirs_are_private_per_role() {
    let base = "/tmp/my-croc-role-base";
    let send = role_data_dir(base, Role::Send);
    let recv = role_data_dir(base, Role::Receive);
    assert_eq!(send, "/tmp/my-croc-role-base/send");
    assert_eq!(recv, "/tmp/my-croc-role-base/receive");
    assert_ne!(send, recv, "send and receive must not share an engine data dir");
    assert!(send.starts_with(base) && recv.starts_with(base));
}

#[test]
fn config_load_missing_file_is_default() {
    let loaded = ConfigFile::load_from("/tmp/nope.toml", ConfigRead::Missing).expect("load");
    assert_eq!(loaded, ConfigFile::default());
}

#[test]
fn config_load_reads_the_file_in_the_config_dir() {
    let around = with_config_dir("/tmp/c");
    assert_eq!(ConfigFile::load(&around, ConfigRead::Missing), Ok(ConfigFile::default()));
    let mut file = ConfigFile::default();
    file.set("overwrite", "true").expect("ok");
    let loaded = ConfigFile::load(&around, ConfigRead::Parsed(file)).expect("load");
    assert_eq!(loaded.overwrite, Some(true));
    let path = "/tmp/c/config.toml".to_string();
    assert_eq!(
        ConfigFile::load(&around, ConfigRead::Malformed("line 1".to_string())),
        Err(ConfigError::Parse { path: path.clone(), source: "line 1".to_string() })
    );
    assert_eq!(
        ConfigFile::load(&around, ConfigRead::Failed("denied".to_string())),
        Err(ConfigError::Read { path, source: "denied".to_string() })
    );
    let nowhere = Surroundings { platform_dir: None, ..plain() };
    assert_eq!(
        ConfigFile::load(&nowhere, ConfigRead::Missing),
        Err(ConfigError::NoConfigDir(identity::Error::ConfigDirNotFound))
    );
    let config = Config::load(&around, ConfigRead::Parsed(loaded)).expect("settings");
    assert!(config.overwrite);
    assert!(Config::load(&around, ConfigRead::Malformed("line 1".to_string())).is_err());
}

#[test]
fn config_invalid_toml_is_parse_error() {
    assert!(matches!(
        ConfigFile::load_from("/tmp/config.toml", ConfigRead::Malformed("x".to_string())),
        Err(ConfigError::Parse { .. })
    ));
    assert!(matches!(
        ConfigFile::load_from("/tmp/config.toml", ConfigRead::Failed("x".to_string())),
        Err(ConfigError::Read { .. })
    ));
}

#[test]
fn config_set_validates_and_normalizes() {
    let mut file = ConfigFile::default();
    assert_eq!(file.set("overwrite", "true").expect("ok"), "true");
    assert_eq!(file.overwrite, Some(true));
    assert!(matches!(file.set("overwrite", "maybe"), Err(ConfigError::InvalidValue { .. })));
    assert!(matches!(file.set("relay_url", "   "), Err(ConfigError::InvalidValue { .. })));
    assert!(matches!(file.set("bogus", "x"), Err(ConfigError::InvalidKey(_))));
    assert_eq!(file.set("data_dir", " /tmp/d ").expect("ok"), "/tmp/d");
    assert_eq!(file.data_dir, Some("/tmp/d".to_string()));
    assert_eq!(file.set("overwrite", "false").expect("ok"), "false");
    assert_eq!(file.overwrite, Some(false));
    assert_eq!(file.relay_url, None, "a refused value changes nothing");
}

#[test]
fn config_resolve_file_over_default() {
    let cfg = Config::resolve(&full_file(), &plain()).expect("resolve");
    assert_eq!(cfg.rendezvous_url, "http://rv.example:8080");
    assert_eq!(cfg.relay_url, "http://relay.example:3340");
    assert_eq!(cfg.data_dir, "/tmp/my-croc-data");
    assert!(cfg.overwrite);
}

#[test]
fn config_resolve_env_wins_over_file() {
    let around =
        Surroundings { relay_url: Some("http://env-relay:9999".to_string()), ..plain() };
    let cfg = Config::resolve(&full_file(), &around).expect("resolve");
    assert_eq!(cfg.relay_url, "http://env-relay:9999");
    assert_eq!(cfg.rendezvous_url, "http://rv.example:8080");
}

#[test]
fn config_resolve_defaults() {
    let cfg = Config::resolve(&ConfigFile::default(), &plain()).expect("resolve");
    assert_eq!(cfg.rendezvous_url, DEFAULT_RENDEZVOUS_URL);
    assert_eq!(cfg.relay_url, DEFAULT_RELAY_URL);
    assert!(!cfg.overwrite);
    assert_eq!(cfg.data_dir, identity::Config::config_dir(&plain()).expect("config dir"));
}

#[test]
fn config_field_lookup() {
    let cfg = Config::resolve(&full_file(), &plain()).expect("resolve");
    assert_eq!(cfg.field("overwrite").expect("ok"), "true");
    assert_eq!(cfg.field("relay_url").expect("ok"), "http://relay.example:3340");
    assert!(matches!(cfg.field("bogus"), Err(ConfigError::InvalidKey(_))));
}

#[test]
fn the_config_file_has_its_paths() {
    assert_eq!(CONFIG_FILE, "config.toml");
    assert_eq!(
        ConfigFile::path(&plain()).expect("path"),
        "/home/u/.config/worddrop/config.toml"
    );
    assert_eq!(
        temporary_config_path("/tmp/c", "config.toml", 42),
        "/tmp/c/.config.toml.42.tmp"
    );
    let nowhere = Surroundings { platform_dir: None, ..plain() };
    assert!(matches!(ConfigFile::path(&nowhere), Err(ConfigError::NoConfigDir(_))));
}

#[test]
fn config_errors_name_the_path() {
    for error in [
        ConfigError::Write { path: "/p".to_string(), source: "s".to_string() },
        ConfigError::Encode { path: "/p".to_string(), source: "s".to_string() },
        ConfigError::Read { path: "/p".to_string(), source: "s".to_string() },
    ] {
        let text = error.to_string();
        assert!(text.contains("/p") && text.contains("s"), "{text}");
    }
}

#[test]
fn identity_config_defaults_are_correct() {
    let cfg = identity::Config::load(&plain()).expect("load config");
    assert_eq!(cfg.rendezvous_url, DEFAULT_RENDEZVOUS_URL);
    assert_eq!(cfg.relay_url, DEFAULT_RELAY_URL);
    assert_eq!(cfg.data_dir, identity::Config::config_dir(&plain()).expect("config dir"));
    let explicit = identity::Config::with_dir("/tmp/x".to_string());
    assert_eq!(explicit.data_dir, "/tmp/x");
    assert_eq!(explicit.relay_url, DEFAULT_RELAY_URL);
}

#[test]
fn identity_my_croc_config_dir_env_override_works() {
    let around = with_config_dir("/tmp/override");
    assert_eq!(identity::Config::config_dir(&around).expect("dir"), "/tmp/override");
    assert_eq!(identity::Config::load(&around).expect("load").data_dir, "/tmp/override");
    assert_eq!(Identity::key_path("/tmp/override"), "/tmp/override/key.bin");
    let empty = Surroundings { config_dir: Some(String::new()), ..plain() };
    assert_eq!(
        identity::Config::config_dir(&empty).expect("dir"),
        "/home/u/.config/worddrop",
        "an empty variable counts as not set"
    );
}

#[test]
fn identity_env_url_and_data_dir_overrides_apply() {
    let around = Surroundings {
        data_dir: Some("/tmp/data".to_string()),
        rendezvous_url: Some("http://example.test:9999".to_string()),
        relay_url: Some("http://relay.example.test:4444".to_string()),
        ..plain()
    };
    let cfg = identity::Config::load(&around).expect("load config with overrides");
    assert_eq!(cfg.data_dir, "/tmp/data");
    assert_eq!(cfg.rendezvous_url, "http://example.test:9999");
    assert_eq!(cfg.relay_url, "http://relay.example.test:4444");
    let nowhere = Surroundings { platform_dir: None, ..around };
    assert!(identity::Config::load(&nowhere).is_ok(), "a data dir needs no config dir");
}

fn load(read: KeyRead) -> (Identity, bool) {
    match Identity::load_or_create("/tmp/c", read) {
        Ok(out) => out,
        Err(error) => panic!("identity: {error:?}"),
    }
}

#[test]
fn identity_second_run_loads_same_key() {
    let (first, fresh) = load(KeyRead::Missing);
    assert!(fresh);
    let (second, fresh) = load(KeyRead::Found(first.key_bytes().to_vec()));
    assert!(!fresh);
    assert_eq!(first.key_bytes(), second.key_bytes(), "key must be stable across runs");
    assert_eq!(first.node_id(), second.node_id(), "NodeId must be stable across runs");
}

#[test]
fn identity_corrupt_key_file_is_regenerated_with_warning() {
    let (identity, fresh) = load(KeyRead::Found(b"garbage-not-32-bytes".to_vec()));
    assert!(fresh, "corrupt file must be replaced with a valid key");
    assert_eq!(identity.key_bytes().len(), 32);
    let (other, _) = load(KeyRead::Found(Vec::new()));
    assert_ne!(identity.key_bytes(), other.key_bytes(), "each key is drawn anew");
}

#[test]
fn identity_any_32_byte_seed_is_accepted_as_the_key() {
    let garbage = [0xAAu8; 32];
    let (identity, fresh) = load(KeyRead::Found(garbage.to_vec()));
    assert!(!fresh);
    assert_eq!(identity.key_bytes(), garbage, "32-byte seed is used as-is");
    assert_eq!(
        identity.node_id(),
        *iroh_base::SecretKey::from_bytes(&garbage).public().as_bytes()
    );
    assert_ne!(identity.node_id(), garbage);
}

#[test]
fn a_drawn_seed_is_used_only_where_no_key_is_stored() {
    let drawn = [3u8; 32];
    let used = |read: KeyRead| match Identity::load_or_use("/tmp/c", read, drawn) {
        Ok((identity, fresh)) => (identity.key_bytes().to_vec(), fresh),
        Err(error) => panic!("identity: {error:?}"),
    };
    assert_eq!(used(KeyRead::Missing), (drawn.to_vec(), true));
    assert_eq!(used(KeyRead::Found(vec![5; 32])), (vec![5; 32], false));
    assert_eq!(used(KeyRead::Found(vec![5; 31])), (drawn.to_vec(), true));
    assert_eq!(used(KeyRead::Found(vec![5; 33])), (drawn.to_vec(), true));
    assert_eq!(used(KeyRead::Found(Vec::new())), (drawn.to_vec(), true));
    match Identity::load_or_use("/tmp/c", KeyRead::Failed("denied".to_string()), drawn) {
        Err(identity::Error::ReadKey { path, source }) => {
            assert_eq!(path, "/tmp/c/key.bin");
            assert_eq!(source, "denied");
        }
        _ => panic!("unreadable key must fail"),
    }
}

#[test]
fn an_unreadable_key_file_is_an_error() {
    match Identity::load_or_create("/tmp/c", KeyRead::Failed("denied".to_string())) {
        Err(identity::Error::ReadKey { path, source }) => {
            assert_eq!(path, "/tmp/c/key.bin");
            assert_eq!(source, "denied");
        }
        _ => panic!("unreadable key must fail"),
    }
    assert_eq!(temporary_key_path("/tmp/c", 7), "/tmp/c/.key.bin.7.tmp");
    assert_eq!(key_creation_step("/c", true, Creation::Created), Ok(true));
    assert_eq!(key_creation_step("/c", true, Creation::Exists("x".to_string())), Ok(false));
    assert_eq!(
        key_creation_step("/c", false, Creation::Exists("x".to_string())),
        Err(identity::Error::WriteKey { dir: "/c".to_string(), source: "x".to_string() })
    );
}

#[test]
fn keywords_map_to_the_three_modes() {
    assert_eq!(relay_mode_from_url("public"), Ok(RelayMode::Default));
    assert_eq!(relay_mode_from_url("DEFAULT"), Ok(RelayMode::Default));
    assert_eq!(relay_mode_from_url("disabled"), Ok(RelayMode::Disabled));
    assert_eq!(relay_mode_from_url("off"), Ok(RelayMode::Disabled));
    assert_eq!(relay_mode_from_url("NONE"), Ok(RelayMode::Disabled));
    assert_eq!(relay_keyword("https://x"), None);
}

#[test]
fn a_relay_url_maps_to_custom() {
    assert!(matches!(
        relay_mode_from_url("https://relay.example.com"),
        Ok(RelayMode::Custom(_))
    ));
}

#[test]
fn a_foreign_scheme_is_rejected() {
    assert!(relay_mode_from_url("mqtts://x").is_err());
    let err = custom_relay("mqtts://x", Ok("mqtts".to_string())).unwrap_err();
    assert!(err.contains("\"mqtts\""), "{err}");
}

#[test]
fn empty_and_hostless_urls_are_rejected() {
    assert!(relay_mode_from_url("").is_err());
    assert!(relay_mode_from_url("http://").is_err());
}

#[test]
fn new_rejects_invalid_relay_url() {
    let err = engine_relay("not a url").unwrap_err();
    assert!(matches!(err, EngineError::RelayUrl { .. }), "got {err:?}");
    assert_eq!(
        engine_relay("https://relay.example"),
        Ok(RelayMode::Custom("https://relay.example".to_string()))
    );
}

#[test]
fn a_bad_relay_is_a_runtime_error() {
    let mut config = Config::resolve(&full_file(), &plain()).expect("resolve");
    assert!(matches!(configured_relay(&config), Ok(RelayMode::Custom(_))));
    config.relay_url = "mqtts://x".to_string();
    let err = configured_relay(&config).unwrap_err();
    assert_eq!(err.exit_code(), 2);
    assert!(err.to_string().starts_with("无效的中继地址 \"mqtts://x\" / "), "{err:?}");
    config.relay_url = "off".to_string();
    assert_eq!(configured_relay(&config), Ok(RelayMode::Disabled));
}

#[test]
fn summaries_say_how_it_went() {
    assert_eq!(
        send_summary(&SendOutcome::Completed {
            bytes: 2048,
            files: 3,
            skipped_bytes: 0,
            skipped_files: 0
        }),
        "传输完成：3 个文件，2.0 KiB / Transfer complete: 3 files, 2.0 KiB\n"
    );
    assert_eq!(
        receive_summary(&ReceiveOutcome::Completed { bytes: 0, files: 0, skipped_files: 2 }),
        "传输完成：0 个文件，0 B / Transfer complete: 0 files, 0 B\n\
         （跳过 2 个已存在文件 / skipped 2 existing files）\n"
    );
    assert_eq!(
        send_summary(&SendOutcome::Declined { reason: "no".to_string() }),
        "接收方已拒绝：no / Receiver declined: no\n"
    );
    assert_eq!(receive_summary(&ReceiveOutcome::Declined), "已拒绝 / Declined\n");
    assert_eq!(receive_summary(&ReceiveOutcome::Cancelled), "已取消 / Cancelled\n");
    assert_eq!(send_summary(&SendOutcome::Cancelled), "已取消 / Cancelled\n");
}

#[test]
fn cleanup_reports_both_roles() {
    assert_eq!(
        cleanup_report(2, 0),
        "已清空发送缓存 2 个 blob / Cleared send cache (2 blobs)\n\
         已清空接收缓存 0 个 blob / Cleared receive cache (0 blobs)"
    );
    let err = cleanup_failure(Role::Receive, CleanupStep::Open, "locked");
    assert_eq!(
        err,
        CliError::Runtime(
            "无法打开 receive 角色的缓存 / failed to open receive role cache: locked".to_string()
        )
    );
    for step in [CleanupStep::Count, CleanupStep::Clear, CleanupStep::ShutDown] {
        assert!(cleanup_failure(Role::Send, step, "locked").to_string().ends_with(": locked"));
    }
}

#[test]
fn breakdowns_are_runtime_errors() {
    assert_eq!(
        breakdown_error(Breakdown::Flow),
        CliError::Runtime("传输流程超过 180 秒上限 / flow exceeded the 180s limit".to_string())
    );
    assert!(breakdown_error(Breakdown::Relay("public".to_string()))
        .to_string()
        .ends_with("timed out contacting relay server public after 15s"));
    assert_eq!(breakdown_error(Breakdown::Runtime("x".to_string())).exit_code(), 2);
    assert!(breakdown_error(Breakdown::Engine("y".to_string())).to_string().ends_with(": y"));
}

#[test]
fn verbosity_and_exit_codes() {
    assert_eq!(log_level(0), LogLevel::Warn);
    assert_eq!(log_level(1), LogLevel::Info);
    assert_eq!(log_level(200), LogLevel::Debug);
    assert_eq!(parse_error_code(true), 1);
    assert_eq!(parse_error_code(false), 0);
    assert_eq!(crate_version(), "0.1.0");
}
