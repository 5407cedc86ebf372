//! Laws of how failures are reported.
use vstd::prelude::*;

use crate::commands::{breakdown_error, cleanup_failure, Breakdown, CleanupStep, Role};
use crate::config::ConfigError;
use crate::error::CliError;
use crate::pairing::spake::SpakeError;
use crate::pairing::wordcode::WordCodeError;
use crate::protocol::wire::WireError;
use crate::receive::RecvError;
use crate::rendezvous::mailbox::NameplateError;
use crate::rendezvous_client::RvError;
use crate::send::SendError;
use crate::session::control::{ControlMessage, FileMeta, SessionError};
use crate::session::state::{SessionPhase, TransitionError};
use crate::text::{decimal, quoted};
use crate::transfer::receive::ReceiveError;
use crate::wire::PairError;

verus! {

broadcast use vstd::string::group_string_axioms;

/// A failure over the identity names the file or the directory and the reason; where there is no
/// directory, the report names the variable that sets one.
pub proof fn a_failed_identity_says_where_and_why(error: &crate::identity::Error, text: String)
    requires
        call_ensures(crate::identity::Error::to_string, (error,), text),
    ensures
        error is ConfigDirNotFound ==> text@
            == "no platform config dir found; set WORDDROP_CONFIG_DIR to an explicit directory"@,
        error matches crate::identity::Error::ReadKey { path, source } ==> text@
            == "failed to read identity key file "@ + path@ + ": "@ + source@,
        error matches crate::identity::Error::WriteKey { dir, source } ==> text@
            == "failed to write identity key in "@ + dir@ + ": "@ + source@,
{
}

/// A failure of the engine names what it is about and the reason.
pub proof fn a_failed_engine_says_where_and_why(
    error: &crate::transfer::engine::Error,
    text: String,
)
    requires
        call_ensures(crate::transfer::engine::Error::to_string, (error,), text),
    ensures
        error matches crate::transfer::engine::Error::RelayUrl { url, source } ==> text@
            == "invalid relay URL "@ + quoted(url@) + ": "@ + source@,
        error matches crate::transfer::engine::Error::StoreLoad { dir, source } ==> text@
            == "failed to load blob store at "@ + dir@ + ": "@ + source@,
        error matches crate::transfer::engine::Error::DataDirNotDirectory { path } ==> text@
            == "data dir "@ + path@ + " exists but is not a directory"@,
        error matches crate::transfer::engine::Error::Bind { source } ==> text@
            == "failed to bind iroh endpoint: "@ + source@,
        error matches crate::transfer::engine::Error::Shutdown { message } ==> text@
            == "engine shutdown failed: "@ + message@,
{
}

/// A send that cannot be prepared says which path or name is to blame, and why.
pub proof fn a_failed_preparation_says_where_and_why(
    error: &crate::transfer::send::SendError,
    text: String,
)
    requires
        call_ensures(crate::transfer::send::SendError::to_string, (error,), text),
    ensures
        error matches crate::transfer::send::SendError::MissingSource { path } ==> text@
            == "source path "@ + path@ + " does not exist"@,
        error matches crate::transfer::send::SendError::ReadMetadata { path, source } ==> text@
            == "failed to read metadata for "@ + path@ + ": "@ + source@,
        error matches crate::transfer::send::SendError::ReadDirectory { path, source } ==> text@
            == "failed to read directory "@ + path@ + ": "@ + source@,
        error matches crate::transfer::send::SendError::InvalidUtf8PathComponent { path } ==> text@
            == "path component of "@ + path@ + " is not valid UTF-8"@,
        error matches crate::transfer::send::SendError::InvalidRootName { path } ==> text@
            == "cannot derive a name for input path "@ + path@,
        error matches crate::transfer::send::SendError::UnsupportedFileType { path } ==> text@
            == "unsupported file type at "@ + path@,
        error matches crate::transfer::send::SendError::DuplicateName { name } ==> text@
            == "duplicate collection name "@ + quoted(name@),
        error matches crate::transfer::send::SendError::Import { name, source } ==> text@
            == "failed to import "@ + quoted(name@) + ": "@ + source@,
        error matches crate::transfer::send::SendError::ImportStreamEnded { name } ==> text@
            == "import of "@ + quoted(name@) + " ended without a result"@,
        error matches crate::transfer::send::SendError::StoreCollection { source } ==> text@
            == "failed to store collection: "@ + source@,
{
}

/// A failed receive says which path, name or file it is about, and why.
pub proof fn a_failed_download_says_where_and_why(error: &ReceiveError, text: String)
    requires
        call_ensures(ReceiveError::to_string, (error,), text),
    ensures
        error matches ReceiveError::TargetDir { path, source } ==> text@
            == "failed to create target dir "@ + path@ + ": "@ + source@,
        error matches ReceiveError::TargetDirResolve { path, source } ==> text@
            == "failed to resolve target dir "@ + path@ + ": "@ + source@,
        error matches ReceiveError::LocalState { source } ==> text@
            == "failed to read local store state: "@ + source@,
        error matches ReceiveError::Connect { source } ==> text@
            == "failed to connect to the sender: "@ + source@,
        error is ConnectTimeout ==> text@ == "connect to the sender timed out after 30s"@,
        error matches ReceiveError::Sizes { source } ==> text@
            == "failed to fetch collection sizes: "@ + source@,
        error matches ReceiveError::Download { source } ==> text@ == "download failed: "@ + source@,
        error matches ReceiveError::LoadCollection { source } ==> text@
            == "failed to load downloaded collection: "@ + source@,
        error matches ReceiveError::InvalidCollectionName { name } ==> text@ == "collection name "@
            + quoted(name@) + " cannot be mapped safely under the target dir"@,
        error matches ReceiveError::Export { file, source } ==> text@ == "failed to export "@
            + quoted(file@) + ": "@ + source@,
        error matches ReceiveError::ExportStreamEnded { file } ==> text@ == "export of "@ + quoted(
            file@,
        ) + " ended without a result"@,
        error matches ReceiveError::RemoveExisting { path, source } ==> text@
            == "failed to remove existing target "@ + path@ + ": "@ + source@,
        error matches ReceiveError::RecordSave { path, source } ==> text@
            == "failed to save transfer record "@ + path@ + ": "@ + source@,
{
}

/// A failure at the rendezvous is reported in both languages, with the status and the body, or the
/// detail, in each.
pub proof fn a_failed_exchange_says_why_twice(error: &RvError, text: String)
    requires
        call_ensures(RvError::to_string, (error,), text),
    ensures
        error matches RvError::Http { status, body } ==> text@ == "服务器返回 "@ + decimal(
            *status as nat,
        ) + ": "@ + body@ + " / rendezvous HTTP "@ + decimal(*status as nat) + ": "@ + body@,
        error matches RvError::Io(reason) ==> text@
            == "服务器连接错误 / rendezvous io error: "@ + reason@,
        error matches RvError::BadUrl { url, reason } ==> text@ == "服务器地址无效 "@ + url@ + ": "@
            + reason@ + " / invalid rendezvous URL "@ + url@ + ": "@ + reason@,
        error matches RvError::Tls { detail } ==> text@ == "TLS 握手失败: "@ + detail@
            + " / rendezvous TLS handshake failed: "@ + detail@,
        error matches RvError::Mqtt { detail } ==> text@ == "MQTT 错误: "@ + detail@
            + " / MQTT error: "@ + detail@,
        error matches RvError::InvalidTicket { detail } ==> text@ == "配对凭证无效: "@ + detail@
            + " / invalid ticket: "@ + detail@,
        error is Timeout ==> text@
            == "服务器请求超时（15 秒） / rendezvous request timed out after 15s"@,
        error matches RvError::Parse { kind, body } ==> text@ == "解析 "@ + kind@
            + " 响应失败 / failed to parse "@ + kind@ + " response: "@ + body@,
        error matches RvError::Unimplemented { detail } ==> text@ == "该后端暂未实现: "@ + detail@
            + " / this backend is not implemented yet: "@ + detail@,
{
}

/// A failed step of a cleanup is no fault of the user. The report names the step, the role in each
/// language, and the reason.
pub proof fn a_failed_cleanup_says_why(
    role: Role,
    step: CleanupStep,
    source: &str,
    error: CliError,
    name: &'static str,
)
    requires
        call_ensures(cleanup_failure, (role, step, source), error),
        call_ensures(Role::dir_name, (role,), name),
    ensures
        name@ == if role is Send {
            "send"@
        } else {
            "receive"@
        },
        error matches CliError::Runtime(said) && said@ == match step {
            CleanupStep::Open => "无法打开 "@ + name@ + " 角色的缓存 / failed to open "@ + name@
                + " role cache: "@ + source@,
            CleanupStep::Count => "无法读取 "@ + name@ + " 角色的缓存 / failed to read "@ + name@
                + " role cache: "@ + source@,
            CleanupStep::Clear => "无法清空 "@ + name@
                + " 角色的缓存，请确认没有进行中的传输后重试（Windows 下文件被占用会失败）/ failed to clear "@
                + name@
                + " role cache, retry after closing any active transfer (Windows may fail while files are in use): "@
                + source@,
            CleanupStep::ShutDown => "无法关闭 "@ + name@
                + " 角色的引擎 / failed to shut down "@ + name@ + " role engine: "@ + source@,
        },
{
}

/// What breaks down around a flow is reported as a failure at run time, with its reason, or with
/// the limit of three minutes that was exceeded.
pub proof fn a_breakdown_says_why(breakdown: Breakdown, error: CliError)
    requires
        call_ensures(breakdown_error, (breakdown,), error),
    ensures
        error matches CliError::Runtime(said) && said@ == match breakdown {
            Breakdown::Runtime(source) => "无法启动异步运行时 / failed to start async runtime: "@
                + source@,
            Breakdown::Engine(source) => "无法启动传输引擎 / failed to start transfer engine: "@
                + source@,
            Breakdown::Relay(url) =>
                "连接中继服务器超时（15 秒） / timed out contacting relay server "@ + url@
                + " after 15s"@,
            Breakdown::Flow => "传输流程超过 "@ + decimal(180) + " 秒上限 / flow exceeded the "@
                + decimal(180) + "s limit"@,
        },
{
}

/// A frame that is refused is reported with the lengths that disagree.
pub proof fn a_refused_frame_says_why(error: &WireError, text: String)
    requires
        call_ensures(WireError::to_string, (error,), text),
    ensures
        error is MissingLengthPrefix ==> text@ == "frame shorter than the 4-byte length prefix"@,
        error matches WireError::FrameTooLarge { declared, max } ==> text@
            == "declared payload length "@ + decimal(*declared as nat) + " exceeds cap "@ + decimal(
            *max as nat,
        ),
        error matches WireError::LengthMismatch { declared, actual } ==> text@ == "frame length "@
            + decimal(*actual as nat) + " does not match declared payload length "@ + decimal(
            *declared as nat,
        ),
        error matches WireError::Serialize(reason) ==> text@
            == "failed to serialize message body: "@ + reason@,
        error matches WireError::Deserialize(reason) ==> text@
            == "failed to deserialize message body: "@ + reason@,
{
}

/// A failure of the exchange says what failed below it, or what it waited for and how many whole
/// seconds, or both versions.
pub proof fn a_failed_session_says_why(
    error: &SessionError,
    text: String,
    below: &WireError,
    cause: String,
)
    requires
        call_ensures(SessionError::to_string, (error,), text),
        call_ensures(WireError::to_string, (below,), cause),
    ensures
        *error == SessionError::Wire(*below) ==> text@ == "wire error: "@ + cause@,
        error matches SessionError::Io(reason) ==> text@ == "io error: "@ + reason@,
        error is UnexpectedEof ==> text@ == "connection closed by peer mid-message"@,
        error matches SessionError::Timeout { context, limit } ==> text@ == "timed out after "@
            + decimal((*limit / 1000) as nat) + "s waiting for "@ + context@,
        error matches SessionError::VersionMismatch { got, expected } ==> text@
            == "protocol version mismatch: got "@ + decimal(*got as nat) + ", expected "@ + decimal(
            *expected as nat,
        ),
{
}

/// A failure of the key exchange says which message was refused and why.
pub proof fn a_failed_key_exchange_says_why(error: &SpakeError, text: String)
    requires
        call_ensures(SpakeError::to_string, (error,), text),
    ensures
        *error == SpakeError::Protocol(crate::pairing::spake::ProtocolError::BadSide) ==> text@
            == "spake2 protocol error: "@ + "bad side"@,
        *error == SpakeError::Protocol(crate::pairing::spake::ProtocolError::CorruptMessage)
            ==> text@ == "spake2 protocol error: "@ + "corrupt message"@,
        *error == SpakeError::Protocol(crate::pairing::spake::ProtocolError::WrongLength) ==> text@
            == "spake2 protocol error: "@ + "invalid length"@,
        error matches SpakeError::KeyLengthMismatch { expected, actual } ==> text@
            == "derived key length "@ + decimal(*actual as nat) + ", expected "@ + decimal(
            *expected as nat,
        ),
        error is ConfirmationMismatch ==> text@ == "key-confirmation token mismatch"@,
        error matches SpakeError::BadHandshakeLength { kind, expected, actual } ==> text@ == kind@
            + " message length "@ + decimal(*actual as nat) + ", expected "@ + decimal(
            *expected as nat,
        ),
        error is WrongHandshakeKind ==> text@
            == "handshake message of the wrong round (expected spake, got confirm or vice versa)"@,
        error matches SpakeError::InvalidHex(value) ==> text@ == "invalid hex string: "@ + quoted(
            value@,
        ),
{
}

/// A code that is refused is reported with the part that is wrong.
pub proof fn a_refused_code_says_why(error: &WordCodeError, text: String)
    requires
        call_ensures(WordCodeError::to_string, (error,), text),
    ensures
        error is MissingHyphen ==> text@
            == "code must contain a '-' separating nameplate and words"@,
        error matches WordCodeError::InvalidNameplate(n) ==> text@ == "nameplate '"@ + n@
            + "' must be a number in 1..=9999"@,
        error is EmptyWords ==> text@ == "code must contain words after the nameplate"@,
        error matches WordCodeError::WrongWordCount(n) ==> text@
            == "code must contain exactly 3 words, got "@ + decimal(*n as nat),
        error matches WordCodeError::UnknownWord(w) ==> text@ == "word '"@ + w@
            + "' is not in the PGP wordlist"@,
        error matches WordCodeError::DuplicateWord(w) ==> text@ == "word '"@ + w@
            + "' appears more than once in the code"@,
{
}

/// A nameplate that is refused is reported with the rule that it breaks.
pub proof fn a_refused_nameplate_says_why(error: &NameplateError, text: String)
    requires
        call_ensures(NameplateError::to_string, (error,), text),
    ensures
        error is Empty ==> text@ == "nameplate is empty"@,
        error is NotNumeric ==> text@ == "nameplate must be numeric digits only"@,
        error is LeadingZero ==> text@ == "nameplate must not have leading zeros"@,
        error is OutOfRange ==> text@ == "nameplate must be between 1 and 9999"@,
{
}

/// A failed pairing says what failed below it. Other words on the two sides are reported as such,
/// whatever the key exchange itself says of them.
pub proof fn a_failed_pairing_says_why(
    error: &PairError,
    text: String,
    control: &SessionError,
    control_text: String,
    frame: &WireError,
    frame_text: String,
    exchange: &SpakeError,
    exchange_text: String,
)
    requires
        call_ensures(PairError::to_string, (error,), text),
        call_ensures(SessionError::to_string, (control,), control_text),
        call_ensures(WireError::to_string, (frame,), frame_text),
        call_ensures(SpakeError::to_string, (exchange,), exchange_text),
    ensures
        error matches PairError::Io(reason) ==> text@ == "IO 错误 / io error: "@ + reason@,
        *error == PairError::Control(*control) ==> text@ == "控制错误 / control error: "@
            + control_text@,
        *error == PairError::Wire(*frame) ==> text@ == "协议错误 / wire error: "@ + frame_text@,
        *error == PairError::Spake(*exchange) ==> text@ == if *exchange
            is ConfirmationMismatch {
            "配对码不匹配（请确认双方输入的配对码一致） / pairing code mismatch (check both sides entered the same code)"@
        } else {
            "配对失败 / pairing error: "@ + exchange_text@
        },
        error matches PairError::Hung(what) ==> text@ == "等待 "@ + what@
            + " 超时 / timed out waiting for "@ + what@,
        error matches PairError::Not(kind) ==> text@ == "预期 "@ + kind@
            + "，收到其他消息 / expected "@ + kind@ + ", got a different message"@,
{
}

/// A refused step of a session is reported with its name and the phase that it came in.
pub proof fn a_refused_step_says_from_where(error: &TransitionError, text: String, phase: String)
    requires
        call_ensures(TransitionError::to_string, (error,), text),
        call_ensures(SessionPhase::to_string, (&error.from,), phase),
    ensures
        text@ == "illegal transition "@ + (match error.event {
            crate::session::state::Transition::StartPairing => "start_pairing"@,
            crate::session::state::Transition::PairConfirmed => "pair_confirmed"@,
            crate::session::state::Transition::TransferStarted => "transfer_started"@,
            crate::session::state::Transition::Completed => "completed"@,
            crate::session::state::Transition::Cancelled => "cancelled"@,
            crate::session::state::Transition::Failed => "failed"@,
        }) + " from phase "@ + phase@,
        phase@ == match error.from {
            SessionPhase::Created => "created"@,
            SessionPhase::PendingPair => "pending_pair"@,
            SessionPhase::Paired => "paired"@,
            SessionPhase::Transferring => "transferring"@,
            SessionPhase::Done => "done"@,
            SessionPhase::Cancelled => "cancelled"@,
            SessionPhase::Failed => "failed"@,
        },
{
}

/// A failure over the configuration is reported in both languages, with the path and the reason,
/// or the key, in each; one of the directory is reported as it reports itself.
pub proof fn a_failed_configuration_says_why_twice(
    error: &ConfigError,
    text: String,
    below: &crate::identity::Error,
    cause: String,
)
    requires
        call_ensures(ConfigError::to_string, (error,), text),
        call_ensures(crate::identity::Error::to_string, (below,), cause),
    ensures
        *error == ConfigError::NoConfigDir(*below) ==> text@ == cause@,
        error matches ConfigError::Read { path, source } ==> text@ == "读取配置文件失败 "@ + path@
            + ": "@ + source@ + " / failed to read config file "@ + path@ + ": "@ + source@,
        error matches ConfigError::Parse { path, source } ==> text@ == "配置文件无效 "@ + path@
            + ": "@ + source@ + " / invalid config file "@ + path@ + ": "@ + source@,
        error matches ConfigError::Write { path, source } ==> text@ == "写入配置文件失败 "@ + path@
            + ": "@ + source@ + " / failed to write config file "@ + path@ + ": "@ + source@,
        error matches ConfigError::Encode { path, source } ==> text@ == "配置文件编码失败 "@ + path@
            + ": "@ + source@ + " / failed to encode config file "@ + path@ + ": "@ + source@,
        error matches ConfigError::InvalidKey(key) ==> text@ == "未知配置项 "@ + quoted(key@)
            + "（有效项：rendezvous_url、relay_url、data_dir、overwrite） / unknown config key "@ + quoted(
            key@,
        ) + "; valid keys: rendezvous_url, relay_url, data_dir, overwrite"@,
        error matches ConfigError::InvalidValue { key, reason } ==> text@ == "配置项 "@ + quoted(
            key@,
        ) + " 的值无效: "@ + reason@ + " / invalid value for config key "@ + quoted(key@) + ": "@
            + reason@,
{
}

/// What a flow reports of a failure ends in what the part that failed says of it.
pub proof fn a_failed_send_passes_the_cause_on(
    error: &SendError,
    text: String,
    prepare: &crate::transfer::send::SendError,
    prepare_text: String,
    rendezvous: &RvError,
    rendezvous_text: String,
    code: &WordCodeError,
    code_text: String,
    pair: &PairError,
    pair_text: String,
    control: &SessionError,
    control_text: String,
    step: &TransitionError,
    step_text: String,
    message: &ControlMessage,
    message_text: String,
)
    requires
        call_ensures(SendError::to_string, (error,), text),
        call_ensures(crate::transfer::send::SendError::to_string, (prepare,), prepare_text),
        call_ensures(RvError::to_string, (rendezvous,), rendezvous_text),
        call_ensures(WordCodeError::to_string, (code,), code_text),
        call_ensures(PairError::to_string, (pair,), pair_text),
        call_ensures(SessionError::to_string, (control,), control_text),
        call_ensures(TransitionError::to_string, (step,), step_text),
        call_ensures(ControlMessage::shown, (message,), message_text),
    ensures
        *error == SendError::Prepare(*prepare) ==> text@ == prepare_text@,
        *error == SendError::Rv(*rendezvous) ==> text@ == "rendezvous error: "@ + rendezvous_text@,
        *error == SendError::Word(*code) ==> text@ == "word-code error: "@ + code_text@,
        *error == SendError::Pair(*pair) ==> text@ == "pairing error: "@ + pair_text@,
        *error == SendError::Control(*control) ==> text@ == "control error: "@ + control_text@,
        *error == SendError::Transition(*step) ==> text@ == "session error: "@ + step_text@,
        *error == SendError::UnexpectedMessage(*message) ==> text@
            == "unexpected control message: "@ + message_text@,
        error matches SendError::Connection(reason) ==> text@ == "control stream error: "@
            + reason@,
        error is AcceptorClosed ==> text@
            == "control acceptor closed before any receiver dialed in"@,
        error matches SendError::ResultMismatch {
            expected_bytes,
            expected_files,
            got_bytes,
            got_files,
        } ==> text@ == "receiver result mismatch: expected "@ + decimal(*expected_bytes as nat)
            + " bytes / "@ + decimal(*expected_files as nat) + " files, got "@ + decimal(
            *got_bytes as nat,
        ) + " / "@ + decimal(*got_files as nat),
        error matches SendError::Hung(what) ==> text@ == "timed out waiting for "@ + what@,
{
}

/// So does what a receive reports, with the Chinese words in front.
pub proof fn a_failed_receive_passes_the_cause_on(
    error: &RecvError,
    text: String,
    code: &WordCodeError,
    code_text: String,
    rendezvous: &RvError,
    rendezvous_text: String,
    engine: &crate::transfer::engine::Error,
    engine_text: String,
    pair: &PairError,
    pair_text: String,
    control: &SessionError,
    control_text: String,
    step: &TransitionError,
    step_text: String,
    message: &ControlMessage,
    message_text: String,
    download: &ReceiveError,
    download_text: String,
)
    requires
        call_ensures(RecvError::to_string, (error,), text),
        call_ensures(WordCodeError::to_string, (code,), code_text),
        call_ensures(RvError::to_string, (rendezvous,), rendezvous_text),
        call_ensures(crate::transfer::engine::Error::to_string, (engine,), engine_text),
        call_ensures(PairError::to_string, (pair,), pair_text),
        call_ensures(SessionError::to_string, (control,), control_text),
        call_ensures(TransitionError::to_string, (step,), step_text),
        call_ensures(ControlMessage::shown, (message,), message_text),
        call_ensures(ReceiveError::to_string, (download,), download_text),
    ensures
        *error == RecvError::Word(*code) ==> text@ == "配对码格式错误 / word-code error: "@
            + code_text@,
        *error == RecvError::Rv(*rendezvous) ==> text@ == "服务器错误 / rendezvous error: "@
            + rendezvous_text@,
        error matches RecvError::Ticket(ticket) ==> text@ == "无效的票据 / invalid ticket: "@
            + ticket@,
        *error == RecvError::Engine(*engine) ==> text@ == "传输引擎错误 / engine error: "@
            + engine_text@,
        error is RelayHung ==> text@
            == "连接中继服务器超时 / timed out contacting the relay"@,
        *error == RecvError::Pair(*pair) ==> text@ == "配对失败 / pairing error: "@ + pair_text@,
        *error == RecvError::Control(*control) ==> text@ == "控制通道错误 / control error: "@
            + control_text@,
        *error == RecvError::Transition(*step) ==> text@ == "会话状态错误 / session error: "@
            + step_text@,
        *error == RecvError::UnexpectedMessage(*message) ==> text@
            == "意外的控制消息 / unexpected control message: "@ + message_text@,
        *error == RecvError::Receive(*download) ==> text@ == "接收错误 / receive error: "@
            + download_text@,
        error matches RecvError::Connection(reason) ==> text@
            == "连接错误 / connection error: "@ + reason@,
        error matches RecvError::Hung(what) ==> text@ == "等待 "@ + what@
            + " 超时 / timed out waiting for "@ + what@,
        error is NoCode ==> text@ == "未提供配对码 / no pairing code provided"@,
{
}

/// The command line says of a failure what the failure says of itself.
pub proof fn the_command_line_reports_the_failure_itself(
    config: ConfigError,
    config_text: String,
    of_config: CliError,
    identity: crate::identity::Error,
    identity_text: String,
    of_identity: CliError,
    sending: SendError,
    sending_text: String,
    of_sending: CliError,
    receiving: RecvError,
    receiving_text: String,
    of_receiving: CliError,
)
    requires
        call_ensures(ConfigError::to_string, (&config,), config_text),
        call_ensures(<CliError as From<ConfigError>>::from, (config,), of_config),
        call_ensures(crate::identity::Error::to_string, (&identity,), identity_text),
        call_ensures(
            <CliError as From<crate::identity::Error>>::from,
            (identity,),
            of_identity,
        ),
        call_ensures(SendError::to_string, (&sending,), sending_text),
        call_ensures(<CliError as From<SendError>>::from, (sending,), of_sending),
        call_ensures(RecvError::to_string, (&receiving,), receiving_text),
        call_ensures(<CliError as From<RecvError>>::from, (receiving,), of_receiving),
    ensures
        of_config matches CliError::User(said) && said@ == config_text@,
        of_identity matches CliError::User(said) && said@ == identity_text@,
        match of_sending {
            CliError::User(said) => said@ == sending_text@,
            CliError::Runtime(said) => said@ == sending_text@,
        },
        match of_receiving {
            CliError::User(said) => said@ == receiving_text@,
            CliError::Runtime(said) => said@ == receiving_text@,
        },
{
}

/// A message is shown by its name, with every field that it has.
pub proof fn a_message_is_shown_with_its_fields(message: &ControlMessage, text: String)
    requires
        call_ensures(ControlMessage::shown, (message,), text),
    ensures
        message matches ControlMessage::Hello { version } ==> text@ == "Hello { version: "@
            + decimal(*version as nat) + " }"@,
        message is Accept ==> text@ == "Accept"@,
        message is Cancel ==> text@ == "Cancel"@,
        message matches ControlMessage::Decline { reason } ==> text@ == "Decline { reason: "@
            + quoted(reason@) + " }"@,
        message matches ControlMessage::Result { bytes, files, skipped_bytes, skipped_files }
            ==> text@ == "Result { bytes: "@ + decimal(*bytes as nat) + ", files: "@ + decimal(
            *files as nat,
        ) + ", skipped_bytes: "@ + decimal(*skipped_bytes as nat) + ", skipped_files: "@ + decimal(
            *skipped_files as nat,
        ) + " }"@,
{
}

/// An offer is shown with its files one by one: one file more adds its name, its size and its hash
/// behind those of the others, and nothing else changes.
pub proof fn an_offer_is_shown_file_by_file(
    fewer: &ControlMessage,
    more: &ControlMessage,
    files: Vec<FileMeta>,
    longer: Vec<FileMeta>,
    total: u64,
    file: FileMeta,
    shown: String,
    then: String,
) -> (list: Seq<char>)
    requires
        *fewer == (ControlMessage::Offer { files, total_bytes: total }),
        *more == (ControlMessage::Offer { files: longer, total_bytes: total }),
        longer@ == files@.push(file),
        call_ensures(ControlMessage::shown, (fewer,), shown),
        call_ensures(ControlMessage::shown, (more,), then),
    ensures
        files@.len() == 0 ==> list.len() == 0,
        shown@ == "Offer { files: ["@ + list + "], total_bytes: "@ + decimal(total as nat) + " }"@,
        then@ == "Offer { files: ["@ + (list + (if files@.len() == 0 {
            Seq::empty()
        } else {
            ", "@
        }) + ("FileMeta { name: "@ + quoted(file.name@) + ", size: "@ + decimal(file.size as nat)
            + ", hash: "@ + quoted(file.hash@) + " }"@)) + "], total_bytes: "@ + decimal(
            total as nat,
        ) + " }"@,
{
    let n = files@.len() as int;
    let list = crate::session::control::files_shown(files@, n);
    shown_alike(files@, longer@, n);
    reveal_with_fuel(crate::session::control::files_shown, 2);
    assert(longer@[n] == file);
    assert(crate::session::control::files_shown(longer@, n + 1) =~= list + (if n == 0 {
        Seq::empty()
    } else {
        ", "@
    }) + crate::session::control::file_shown(file));
    list
}

proof fn shown_alike(files: Seq<FileMeta>, longer: Seq<FileMeta>, n: int)
    requires
        0 <= n <= files.len() <= longer.len(),
        forall|i: int| 0 <= i < n ==> files[i] == longer[i],
    ensures
        crate::session::control::files_shown(files, n) == crate::session::control::files_shown(
            longer,
            n,
        ),
    decreases n,
{
    if n > 1 {
        shown_alike(files, longer, n - 1);
    }
}

/// The name of a state on the wire reads back as that state, and no other name is one.
pub proof fn a_state_reads_back_from_its_name(
    state: crate::rendezvous::mailbox::PairState,
    name: &'static str,
    given: &str,
    read: Option<crate::rendezvous_client::PairState>,
)
    requires
        call_ensures(crate::rendezvous::mailbox::PairState::as_str, (state,), name),
        call_ensures(crate::rendezvous_client::PairState::from_str, (given,), read),
    ensures
        given@ == name@ ==> read == Some(
            match state {
                crate::rendezvous::mailbox::PairState::Pending =>
                    crate::rendezvous_client::PairState::Pending,
                crate::rendezvous::mailbox::PairState::Claimed =>
                    crate::rendezvous_client::PairState::Claimed,
                crate::rendezvous::mailbox::PairState::Expired =>
                    crate::rendezvous_client::PairState::Expired,
            },
        ),
        given@ != "pending"@ && given@ != "claimed"@ && given@ != "expired"@ ==> read is None,
{
    reveal_strlit("pending");
    reveal_strlit("claimed");
    reveal_strlit("expired");
    assert("pending"@[0] == 'p' && "claimed"@[0] == 'c' && "expired"@[0] == 'e');
}

} // verus!
