//! The model client's rules: its settings, the request that it sends, the
//! kinds of failure, and the text that an answer holds.

use crate::text::{decimal, decimal_string, parse_secs, parsed_secs};
use vstd::prelude::*;
use vstd::string::*;

verus! {

/// The setting that overrides the time allowed for one request, in seconds.
pub const TIMEOUT_SETTING: &'static str = "OLLAMA_TIMEOUT_SECS";

/// The setting that overrides the model identifier.
pub const MODEL_SETTING: &'static str = "OLLAMA_MODEL";

/// The setting that overrides the pause of a deliberation, in seconds.
pub const PAUSE_SETTING: &'static str = "DELIBERATION_SECS";

/// The seconds allowed for one request where no setting says otherwise.
pub const DEFAULT_TIMEOUT_SECS: u64 = 600;

/// The model asked where no setting says otherwise.
pub const DEFAULT_MODEL: &'static str = "qwen2.5-coder:14b";

/// Where the model service listens.
pub const ENDPOINT: &'static str = "http://127.0.0.1:11434/api/chat";

/// The sampling temperature of every request, in tenths.
pub const TEMPERATURE_TENTHS: u64 = 7;

/// Whether the answer is asked for in pieces: never, it comes as one document.
pub const STREAMING: bool = false;

/// The role under which the system instruction is sent.
pub const SYSTEM_ROLE: &'static str = "system";

/// The role under which the user instruction is sent.
pub const USER_ROLE: &'static str = "user";

/// What is said to the operator after a timeout.
pub const TIMEOUT_HINT: &'static str =
    "TIMEOUT: Consider increasing OLLAMA_TIMEOUT_SECS env var or using a smaller model";

/// What is said to the operator when the service cannot be reached.
pub const CONNECTION_HINT: &'static str =
    "CONNECTION: Is Ollama running? Check: http://127.0.0.1:11434";

/// The name of the answer's member that holds the message.
pub const MESSAGE_MEMBER: &'static str = "message";

/// The name of the message's member that holds the text.
pub const CONTENT_MEMBER: &'static str = "content";

/// Why a request to the model service gave no text.
#[derive(Clone, Copy, Debug, PartialEq, Eq, Structural)]
pub enum Failure {
    /// The service could not be reached.
    Connection,
    /// The request took longer than the time allowed.
    Timeout,
    /// The service answered with a status that is no success.
    Status,
    /// The service's answer was no JSON document.
    Undecodable,
    /// Anything else that went wrong on the way.
    Other,
}

/// What the transport reports of a request that failed.
#[derive(Clone, Copy, Debug, PartialEq, Eq, Structural)]
pub struct Fault {
    /// The time allowed ran out.
    pub timed_out: bool,
    /// No connection could be made.
    pub unreachable: bool,
    /// The service answered with a status that is no success.
    pub bad_status: bool,
}

/// The settings of the client, as read when a request is made.
pub struct Config {
    pub timeout_secs: u64,
    pub model: String,
    pub pause_secs: Option<u64>,
}

/// One message of a request: who speaks, and what is said.
pub struct Message {
    pub role: String,
    pub content: String,
}

/// One request to the model service: the model, whether the answer is to
/// come in pieces, the sampling temperature, the messages in their order,
/// and the seconds allowed.
pub struct ModelRequest {
    pub model: String,
    pub stream: bool,
    pub temperature_tenths: u64,
    pub messages: Vec<Message>,
    pub timeout_secs: u64,
}

/// The seconds allowed for a request under a timeout setting.
pub open spec fn timeout_of(setting: Option<Seq<char>>) -> u64 {
    match setting {
        Some(text) => match parsed_secs(text) {
            Some(secs) => secs,
            None => DEFAULT_TIMEOUT_SECS,
        },
        None => DEFAULT_TIMEOUT_SECS,
    }
}

/// The model asked under a model setting.
pub open spec fn model_of(setting: Option<Seq<char>>) -> Seq<char> {
    match setting {
        Some(text) => text,
        None => DEFAULT_MODEL@,
    }
}

/// The pause that a pause setting asks for, if it asks for one.
pub open spec fn pause_setting_of(setting: Option<Seq<char>>) -> Option<u64> {
    match setting {
        Some(text) => parsed_secs(text),
        None => None,
    }
}

/// The kind of failure that a fault is: a timeout before all else, then a
/// connection that could not be made, then a status.
pub open spec fn failure_of(fault: Fault) -> Failure {
    if fault.timed_out {
        Failure::Timeout
    } else if fault.unreachable {
        Failure::Connection
    } else if fault.bad_status {
        Failure::Status
    } else {
        Failure::Other
    }
}

/// The line that tells the operator of a failed request.
pub open spec fn failure_report(
    cause: Seq<char>,
    model: Seq<char>,
    timeout_secs: u64,
) -> Seq<char> {
    "Ollama request failed: "@ + cause + " (model: "@ + model + ", timeout: "@
        + decimal(timeout_secs as nat) + "s)"@
}

impl Config {
    /// The settings that the three values give; a value that is absent, or a
    /// number of seconds that cannot be read, leaves the default in place.
    pub fn from_settings(
        timeout: Option<&str>,
        model: Option<&str>,
        pause: Option<&str>,
    ) -> (c: Config)
        ensures
            c.timeout_secs == timeout_of(
                match timeout {
                    Some(t) => Some(t@),
                    None => None,
                },
            ),
            c.model@ == model_of(
                match model {
                    Some(m) => Some(m@),
                    None => None,
                },
            ),
            c.pause_secs == pause_setting_of(
                match pause {
                    Some(p) => Some(p@),
                    None => None,
                },
            ),
    {
        let timeout_secs = match timeout {
            Some(text) => match parse_secs(text) {
                Some(secs) => secs,
                None => DEFAULT_TIMEOUT_SECS,
            },
            None => DEFAULT_TIMEOUT_SECS,
        };
        let model = match model {
            Some(text) => String::from_str(text),
            None => String::from_str(DEFAULT_MODEL),
        };
        let pause_secs = match pause {
            Some(text) => parse_secs(text),
            None => None,
        };
        Config { timeout_secs, model, pause_secs }
    }
}

/// The request that carries `system` and `user` to the model under `config`:
/// two messages, the system instruction first, for one answer in one piece.
pub fn ask(system: &str, user: &str, config: &Config) -> (r: ModelRequest)
    ensures
        r.model@ == config.model@,
        r.stream == STREAMING,
        r.temperature_tenths == TEMPERATURE_TENTHS,
        r.timeout_secs == config.timeout_secs,
        r.messages@.len() == 2,
        r.messages@[0].role@ == SYSTEM_ROLE@,
        r.messages@[0].content@ == system@,
        r.messages@[1].role@ == USER_ROLE@,
        r.messages@[1].content@ == user@,
{
    let mut messages: Vec<Message> = Vec::new();
    messages.push(
        Message { role: String::from_str(SYSTEM_ROLE), content: String::from_str(system) },
    );
    messages.push(Message { role: String::from_str(USER_ROLE), content: String::from_str(user) });
    ModelRequest {
        model: String::from_str(config.model.as_str()),
        stream: STREAMING,
        temperature_tenths: TEMPERATURE_TENTHS,
        messages,
        timeout_secs: config.timeout_secs,
    }
}

/// The kind of failure that `fault` is.
pub fn classify(fault: Fault) -> (f: Failure)
    ensures
        f == failure_of(fault),
{
    if fault.timed_out {
        Failure::Timeout
    } else if fault.unreachable {
        Failure::Connection
    } else if fault.bad_status {
        Failure::Status
    } else {
        Failure::Other
    }
}

/// What the operator is advised after `failure`: something after a timeout
/// and after a connection that could not be made, nothing otherwise.
pub fn hint(failure: Failure) -> (h: Option<&'static str>)
    ensures
        failure == Failure::Timeout ==> h == Some(TIMEOUT_HINT),
        failure == Failure::Connection ==> h == Some(CONNECTION_HINT),
        failure != Failure::Timeout && failure != Failure::Connection ==> h is None,
{
    match failure {
        Failure::Timeout => Some(TIMEOUT_HINT),
        Failure::Connection => Some(CONNECTION_HINT),
        _ => None,
    }
}

/// The line that tells the operator that `request` failed because of `cause`.
pub fn report_failure(cause: &str, request: &ModelRequest) -> (line: String)
    ensures
        line@ == failure_report(cause@, request.model@, request.timeout_secs),
{
    let mut line = String::from_str("Ollama request failed: ");
    line.append(cause);
    line.append(" (model: ");
    line.append(request.model.as_str());
    line.append(", timeout: ");
    line.append(decimal_string(request.timeout_secs).as_str());
    line.append("s)");
    line
}

} // verus!
