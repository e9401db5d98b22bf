//! The shutdown command: its wire form, and what a subscriber makes of a
//! message that reaches it.

use crate::json::{
    json_as_str, json_as_u64, json_document, json_get, json_member, json_parse, json_string,
    json_unsigned,
};
use crate::signal::notify;
use crate::text::{ascii_lowercase, decimal, lowercase_equals, push_decimal, str_equal};
use std::sync::mpsc::Sender;
use vstd::prelude::*;
use vstd::string::StringExecFns;
use vstd::utf8::{decode_utf8, valid_utf8};

verus! {

/// The topic that carries commands.
pub const COMMAND_TOPIC: &'static str = "syscommand";

/// The one action that a command can ask for.
pub const ACTION_SHUTDOWN: &'static str = "shutdown";

/// The member of a command that names the action.
pub const FIELD_ACTION: &'static str = "action";

/// The member of a command that names the process it is meant for.
pub const FIELD_PID: &'static str = "pid";

/// A command as it travels: the action by name, and the process it is
/// addressed to.
#[derive(Debug)]
pub struct ShutdownCommand {
    /// The action asked for, as the sender spelt it.
    pub action: String,
    /// The process the command is meant for.
    pub pid: u32,
}

/// What a command says, as plain values.
pub struct CommandView {
    pub action: Seq<char>,
    pub pid: u32,
}

impl View for ShutdownCommand {
    type V = CommandView;

    open spec fn view(&self) -> CommandView {
        CommandView { action: self.action@, pid: self.pid }
    }
}

/// Why a payload is no command.
#[derive(Debug, Clone, Copy, PartialEq, Eq, Structural)]
pub enum ParseError {
    /// The payload is no JSON document.
    NotJson,
    /// The document has no member `action` that is a string.
    NoAction,
    /// The document has no member `pid` that is a non-negative integer.
    NoPid,
    /// The member `pid` is more than a process ID can be.
    PidOutOfRange,
}

/// Why acting on a command failed.
#[derive(Debug, Clone, Copy, PartialEq, Eq, Structural)]
pub enum CommandError {
    /// The shutdown notification found no receiver: nothing is left that
    /// could stop the broker, so the process has to end at once.
    SignalLost,
}

/// What a subscriber makes of a message.
#[derive(Debug, Clone, Copy, PartialEq, Eq, Structural)]
pub enum Disposition {
    /// A shutdown command for this process: notify the hosting thread.
    Shutdown,
    /// The message came on another topic.
    OtherTopic,
    /// The payload is no command.
    Malformed(ParseError),
    /// The command is meant for another process.
    OtherProcess,
    /// The command asks for an action that is not known.
    UnknownAction,
}

/// What the members `action` and `pid` of a document make as a command.
pub open spec fn fields_command(action: Option<Seq<char>>, pid: Option<u64>) -> Result<
    CommandView,
    ParseError,
> {
    match (action, pid) {
        (None, _) => Err(ParseError::NoAction),
        (Some(_), None) => Err(ParseError::NoPid),
        (Some(name), Some(number)) => if number <= u32::MAX {
            Ok(CommandView { action: name, pid: number as u32 })
        } else {
            Err(ParseError::PidOutOfRange)
        },
    }
}

/// The string member `key` of a document.
pub open spec fn member_string(document: serde_json::Value, key: Seq<char>) -> Option<Seq<char>> {
    match json_member(document, key) {
        Some(member) => json_string(member),
        None => None,
    }
}

/// The unsigned integer member `key` of a document.
pub open spec fn member_unsigned(document: serde_json::Value, key: Seq<char>) -> Option<u64> {
    match json_member(document, key) {
        Some(member) => json_unsigned(member),
        None => None,
    }
}

/// The command that a payload holds.
pub open spec fn payload_command(payload: Seq<char>) -> Result<CommandView, ParseError> {
    match json_document(payload) {
        None => Err(ParseError::NotJson),
        Some(document) => fields_command(
            member_string(document, FIELD_ACTION@),
            member_unsigned(document, FIELD_PID@),
        ),
    }
}

/// Whether `r` is the command or the error that `expected` says.
pub open spec fn is_command_result(
    r: Result<ShutdownCommand, ParseError>,
    expected: Result<CommandView, ParseError>,
) -> bool {
    match r {
        Ok(command) => expected == Ok::<CommandView, ParseError>(command@),
        Err(e) => expected == Err::<CommandView, ParseError>(e),
    }
}

/// The characters of an optional string.
pub open spec fn option_chars(s: Option<String>) -> Option<Seq<char>> {
    match s {
        Some(text) => Some(text@),
        None => None,
    }
}

/// Whether `action` names the shutdown action: it does when it reads
/// `shutdown` once its ASCII capital letters are in lower case.
pub open spec fn is_shutdown_action(action: Seq<char>) -> bool {
    ascii_lowercase(action) == ACTION_SHUTDOWN@
}

/// What the process `own_pid` makes of a command.
pub open spec fn command_disposition(command: CommandView, own_pid: u32) -> Disposition {
    if command.pid != own_pid {
        Disposition::OtherProcess
    } else if is_shutdown_action(command.action) {
        Disposition::Shutdown
    } else {
        Disposition::UnknownAction
    }
}

/// What the process `own_pid` makes of a parsed payload.
pub open spec fn parsed_disposition(
    parsed: Result<CommandView, ParseError>,
    own_pid: u32,
) -> Disposition {
    match parsed {
        Ok(command) => command_disposition(command, own_pid),
        Err(e) => Disposition::Malformed(e),
    }
}

/// What the process `own_pid` makes of a payload on the command topic.
pub open spec fn payload_disposition(payload: Seq<char>, own_pid: u32) -> Disposition {
    parsed_disposition(payload_command(payload), own_pid)
}

/// The payload of a shutdown command for the process `pid`.
pub open spec fn shutdown_payload_chars(pid: u32) -> Seq<char> {
    "{\"action\":\"shutdown\",\"pid\":"@ + decimal(pid as nat) + "}"@
}

/// The command that the members `action` and `pid` of a document make.
pub fn command_from_fields(action: Option<String>, pid: Option<u64>) -> (r: Result<
    ShutdownCommand,
    ParseError,
>)
    ensures
        is_command_result(r, fields_command(option_chars(action), pid)),
{
    match action {
        None => Err(ParseError::NoAction),
        Some(name) => match pid {
            None => Err(ParseError::NoPid),
            Some(number) => if number <= u32::MAX as u64 {
                Ok(ShutdownCommand { action: name, pid: number as u32 })
            } else {
                Err(ParseError::PidOutOfRange)
            },
        },
    }
}

/// Reads a payload as a command.
pub fn parse_command(payload: &str) -> (r: Result<ShutdownCommand, ParseError>)
    ensures
        is_command_result(r, payload_command(payload@)),
{
    match json_parse(payload) {
        Err(_) => Err(ParseError::NotJson),
        Ok(document) => {
            let action = match json_get(&document, FIELD_ACTION) {
                Some(member) => match json_as_str(member) {
                    Some(name) => Some(String::from_str(name)),
                    None => None,
                },
                None => None,
            };
            let pid = match json_get(&document, FIELD_PID) {
                Some(member) => json_as_u64(member),
                None => None,
            };
            command_from_fields(action, pid)
        },
    }
}

/// Whether a command is meant for the process `current_pid`.
pub fn is_pid_match(cmd: &ShutdownCommand, current_pid: u32) -> (r: bool)
    ensures
        r == (cmd@.pid == current_pid),
{
    cmd.pid == current_pid
}

/// The action of a command, as a subscriber understands it.
#[derive(Debug)]
pub enum Action {
    /// The shutdown action, in whatever case it was spelt.
    Shutdown,
    /// Any other action, as the sender spelt it.
    Unrecognized(String),
}

/// The action of a command, as a subscriber understands it.
pub fn command_action(cmd: &ShutdownCommand) -> (action: Action)
    ensures
        match action {
            Action::Shutdown => is_shutdown_action(cmd@.action),
            Action::Unrecognized(name) => !is_shutdown_action(cmd@.action) && name@
                == cmd@.action,
        },
{
    if asks_shutdown(cmd) {
        Action::Shutdown
    } else {
        Action::Unrecognized(cmd.action.clone())
    }
}

/// Whether a command asks for a shutdown.
pub fn asks_shutdown(cmd: &ShutdownCommand) -> (r: bool)
    ensures
        r == is_shutdown_action(cmd@.action),
{
    lowercase_equals(cmd.action.as_str(), ACTION_SHUTDOWN)
}

/// What the process `own_pid` makes of a command.
pub fn dispose_command(cmd: &ShutdownCommand, own_pid: u32) -> (r: Disposition)
    ensures
        r == command_disposition(cmd@, own_pid),
{
    if !is_pid_match(cmd, own_pid) {
        Disposition::OtherProcess
    } else if asks_shutdown(cmd) {
        Disposition::Shutdown
    } else {
        Disposition::UnknownAction
    }
}

/// What the process `own_pid` makes of a payload on the command topic.
pub fn dispose_payload(payload: &str, own_pid: u32) -> (r: Disposition)
    ensures
        r == payload_disposition(payload@, own_pid),
{
    match parse_command(payload) {
        Ok(command) => dispose_command(&command, own_pid),
        Err(e) => Disposition::Malformed(e),
    }
}

/// The payload of a shutdown command for the process `pid`.
pub fn shutdown_payload(pid: u32) -> (payload: String)
    ensures
        payload@ == shutdown_payload_chars(pid),
{
    let mut payload = String::from_str("{\"action\":\"shutdown\",\"pid\":");
    push_decimal(&mut payload, pid as u128);
    payload.append("}");
    payload
}

/// What comes of a notification: `Ok` where the hosting thread took it,
/// and the error `SignalLost` where nobody was left to take it.
pub fn signal_result(delivered: bool) -> (r: Result<(), CommandError>)
    ensures
        r == if delivered {
            Ok::<(), CommandError>(())
        } else {
            Err::<(), CommandError>(CommandError::SignalLost)
        },
{
    if delivered {
        Ok(())
    } else {
        Err(CommandError::SignalLost)
    }
}

/// What a subscriber returns once it has tried to notify the hosting
/// thread: `Ok(true)` where the notification was taken, and the error
/// `SignalLost` where nobody was left to take it.
pub fn shutdown_outcome(delivered: bool) -> (r: Result<bool, CommandError>)
    ensures
        r == if delivered {
            Ok::<bool, CommandError>(true)
        } else {
            Err::<bool, CommandError>(CommandError::SignalLost)
        },
{
    if delivered {
        Ok(true)
    } else {
        Err(CommandError::SignalLost)
    }
}

/// Notifies the hosting thread that it has to stop.
pub fn send_shutdown_signal(shutdown_tx: &Sender<()>) -> (r: Result<(), CommandError>)
    ensures
        r is Err ==> r == Err::<(), CommandError>(CommandError::SignalLost),
{
    signal_result(notify(shutdown_tx))
}

/// Acts on a command that is meant for this process: a shutdown action
/// notifies the hosting thread, any other action is left alone.
pub fn process_command_action(
    cmd: &ShutdownCommand,
    current_pid: u32,
    shutdown_tx: &Sender<()>,
) -> (r: Result<bool, CommandError>)
    ensures
        !is_shutdown_action(cmd@.action) ==> r == Ok::<bool, CommandError>(false),
        is_shutdown_action(cmd@.action) ==> r == Ok::<bool, CommandError>(true) || r == Err::<
            bool,
            CommandError,
        >(CommandError::SignalLost),
{
    if asks_shutdown(cmd) {
        shutdown_outcome(notify(shutdown_tx))
    } else {
        Ok(false)
    }
}

/// Whether `r` is what a subscriber may return for a message that it
/// makes `disposition` of: for a shutdown `Ok(true)` or, where nobody took
/// the notification, `SignalLost`; `Ok(false)` for anything else, which it
/// ignores, a malformed payload included.
pub open spec fn answers(r: Result<bool, CommandError>, disposition: Disposition) -> bool {
    match disposition {
        Disposition::Shutdown => r == Ok::<bool, CommandError>(true) || r == Err::<
            bool,
            CommandError,
        >(CommandError::SignalLost),
        _ => r == Ok::<bool, CommandError>(false),
    }
}

/// Handles a payload that arrived on the command topic. A payload that is
/// no command is ignored like a command for another process: no error
/// reaches the caller.
pub fn handle_command(payload: &str, current_pid: u32, shutdown_tx: &Sender<()>) -> (r: Result<
    bool,
    CommandError,
>)
    ensures
        answers(r, payload_disposition(payload@, current_pid)),
{
    let cmd = match parse_command(payload) {
        Ok(cmd) => cmd,
        Err(_) => {
            return Ok(false);
        },
    };
    if !is_pid_match(&cmd, current_pid) {
        return Ok(false);
    }
    process_command_action(&cmd, current_pid, shutdown_tx)
}

/// The text that `String::from_utf8_lossy` makes of `bytes`.
pub uninterp spec fn lossy_text(bytes: Seq<u8>) -> Seq<char>;

/// `String::from_utf8_lossy`: the bytes as text, each invalid sequence
/// replaced by U+FFFD; bytes that are valid UTF-8 give the string that they
/// encode.
#[verifier::external_body]
pub(crate) fn utf8_lossy(bytes: &[u8]) -> (text: String)
    ensures
        text@ == lossy_text(bytes@),
        valid_utf8(bytes@) ==> text@ == decode_utf8(bytes@),
{
    String::from_utf8_lossy(bytes).into_owned()
}

/// What the process `own_pid` makes of a message, given the text that its
/// payload reads as.
pub open spec fn text_disposition(topic: Seq<char>, text: Seq<char>, own_pid: u32) -> Disposition {
    if topic != COMMAND_TOPIC@ {
        Disposition::OtherTopic
    } else {
        payload_disposition(text, own_pid)
    }
}

/// What the process `own_pid` makes of a message.
pub open spec fn message_disposition(topic: Seq<char>, payload: Seq<u8>, own_pid: u32)
    -> Disposition {
    text_disposition(topic, lossy_text(payload), own_pid)
}

/// What the process `own_pid` makes of a message.
pub fn dispose_message(topic: &str, payload: &[u8], own_pid: u32) -> (r: Disposition)
    ensures
        r == message_disposition(topic@, payload@, own_pid),
{
    if !str_equal(topic, COMMAND_TOPIC) {
        return Disposition::OtherTopic;
    }
    let text = utf8_lossy(payload);
    dispose_payload(text.as_str(), own_pid)
}

/// Handles a message that the broker delivered: one on another topic is
/// left alone, one on the command topic is handled as a command.
pub fn should_process_shutdown(
    topic: &str,
    payload: &[u8],
    current_pid: u32,
    shutdown_tx: &Sender<()>,
) -> (r: Result<bool, CommandError>)
    ensures
        answers(r, message_disposition(topic@, payload@, current_pid)),
{
    if !str_equal(topic, COMMAND_TOPIC) {
        return Ok(false);
    }
    let text = utf8_lossy(payload);
    handle_command(text.as_str(), current_pid, shutdown_tx)
}

/// Only a well-formed command that names this process and the shutdown
/// action is a shutdown: a malformed payload, another process ID and an
/// unknown action never are.
pub proof fn lemma_shutdown_iff(parsed: Result<CommandView, ParseError>, own_pid: u32)
    ensures
        parsed_disposition(parsed, own_pid) == Disposition::Shutdown <==> (parsed matches Ok(
            command,
        ) && command.pid == own_pid && is_shutdown_action(command.action)),
{
}

/// A subscriber notifies the hosting thread only for a message that it
/// makes a shutdown of: whenever it returns `Ok(true)` or `SignalLost`,
/// the message was a shutdown command for this process.
pub proof fn lemma_notified_only_for_shutdown(
    r: Result<bool, CommandError>,
    disposition: Disposition,
)
    requires
        answers(r, disposition),
        r == Ok::<bool, CommandError>(true) || r == Err::<bool, CommandError>(
            CommandError::SignalLost,
        ),
    ensures
        disposition == Disposition::Shutdown,
{
}

/// The members `"shutdown"` and `pid` make a command that the process
/// `pid` shuts down for and that every other process leaves alone.
pub proof fn lemma_shutdown_addressed(pid: u32, own_pid: u32)
    ensures
        fields_command(Some(ACTION_SHUTDOWN@), Some(pid as u64)) matches Ok(command)
            && command_disposition(command, own_pid) == if pid == own_pid {
            Disposition::Shutdown
        } else {
            Disposition::OtherProcess
        },
{
    reveal_strlit("shutdown");
    assert(ascii_lowercase(ACTION_SHUTDOWN@) =~= ACTION_SHUTDOWN@);
}

/// The action is recognised whatever the case of its ASCII letters.
pub proof fn lemma_shutdown_any_case(action: Seq<char>)
    requires
        action.len() == 8,
        action[0] == 's' || action[0] == 'S',
        action[1] == 'h' || action[1] == 'H',
        action[2] == 'u' || action[2] == 'U',
        action[3] == 't' || action[3] == 'T',
        action[4] == 'd' || action[4] == 'D',
        action[5] == 'o' || action[5] == 'O',
        action[6] == 'w' || action[6] == 'W',
        action[7] == 'n' || action[7] == 'N',
    ensures
        is_shutdown_action(action),
{
    reveal_strlit("shutdown");
    assert(ascii_lowercase(action) =~= ACTION_SHUTDOWN@);
}

} // verus!
