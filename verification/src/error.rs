//! The errors of the library, each with the message shown to the user.

use vstd::prelude::*;
use vstd::string::StringExecFns;

verus! {

/// Why a configuration was refused.
#[derive(Debug, PartialEq, Eq)]
pub enum ConfigError {
    /// The configuration file could not be read; `source` is the reader's report.
    IO { source: String },
    /// The document is malformed or a field has the wrong shape; `source` is the
    /// parser's report.
    Parse { source: String },
    UnknownKeyboardButton { button: String, allowed_values: String },
    UnknownGamepadButton { button: String, allowed_values: String },
    UnknownBankId { bank: String },
    UnknownSampleId { bank: String, sample: String },
}

/// The view of `ConfigError`: its texts as sequences of characters.
pub enum ConfigErrorView {
    IO { source: Seq<char> },
    Parse { source: Seq<char> },
    UnknownKeyboardButton { button: Seq<char>, allowed_values: Seq<char> },
    UnknownGamepadButton { button: Seq<char>, allowed_values: Seq<char> },
    UnknownBankId { bank: Seq<char> },
    UnknownSampleId { bank: Seq<char>, sample: Seq<char> },
}

impl View for ConfigError {
    type V = ConfigErrorView;

    open spec fn view(&self) -> ConfigErrorView {
        match self {
            ConfigError::IO { source } => ConfigErrorView::IO { source: source@ },
            ConfigError::Parse { source } => ConfigErrorView::Parse { source: source@ },
            ConfigError::UnknownKeyboardButton { button, allowed_values } => {
                ConfigErrorView::UnknownKeyboardButton {
                    button: button@,
                    allowed_values: allowed_values@,
                }
            },
            ConfigError::UnknownGamepadButton { button, allowed_values } => {
                ConfigErrorView::UnknownGamepadButton {
                    button: button@,
                    allowed_values: allowed_values@,
                }
            },
            ConfigError::UnknownBankId { bank } => ConfigErrorView::UnknownBankId { bank: bank@ },
            ConfigError::UnknownSampleId { bank, sample } => ConfigErrorView::UnknownSampleId {
                bank: bank@,
                sample: sample@,
            },
        }
    }
}

impl ConfigErrorView {
    /// The message of the error.
    pub open spec fn message(self) -> Seq<char> {
        match self {
            ConfigErrorView::IO { source } => "Failed to read config file: "@ + source,
            ConfigErrorView::Parse { source } => "Failed to parse config file: "@ + source,
            ConfigErrorView::UnknownKeyboardButton { button, allowed_values } => {
                "Unknown keyboard button \""@ + button + "\". Allowed values are: "@
                    + allowed_values
            },
            ConfigErrorView::UnknownGamepadButton { button, allowed_values } => {
                "Unknown gamepad button \""@ + button + "\". Allowed values are: "@
                    + allowed_values
            },
            ConfigErrorView::UnknownBankId { bank } => {
                "Bank with id \""@ + bank + "\" has not been defined"@
            },
            ConfigErrorView::UnknownSampleId { bank, sample } => {
                "Sample with id \""@ + sample + "\" has not been defined in bank \""@ + bank
                    + "\""@
            },
        }
    }
}

impl ConfigError {
    /// The message of the error.
    pub fn message(&self) -> (message: String)
        ensures
            message@ == self@.message(),
    {
        match self {
            ConfigError::IO { source } => {
                String::from_str("Failed to read config file: ").concat(source.as_str())
            },
            ConfigError::Parse { source } => {
                String::from_str("Failed to parse config file: ").concat(source.as_str())
            },
            ConfigError::UnknownKeyboardButton { button, allowed_values } => {
                String::from_str("Unknown keyboard button \"").concat(button.as_str()).concat(
                    "\". Allowed values are: ",
                ).concat(allowed_values.as_str())
            },
            ConfigError::UnknownGamepadButton { button, allowed_values } => {
                String::from_str("Unknown gamepad button \"").concat(button.as_str()).concat(
                    "\". Allowed values are: ",
                ).concat(allowed_values.as_str())
            },
            ConfigError::UnknownBankId { bank } => {
                String::from_str("Bank with id \"").concat(bank.as_str()).concat(
                    "\" has not been defined",
                )
            },
            ConfigError::UnknownSampleId { bank, sample } => {
                String::from_str("Sample with id \"").concat(sample.as_str()).concat(
                    "\" has not been defined in bank \"",
                ).concat(bank.as_str()).concat("\"")
            },
        }
    }
}

/// Why a sample could not be loaded. `path` is the path that was tried.
#[derive(Debug, PartialEq, Eq)]
pub enum SampleLoadError {
    /// The file could not be read; `source` is the reader's report.
    IO { path: String, source: String },
    /// The file is no audio that can be decoded; `source` is the decoder's
    /// report.
    Decode { path: String, source: String },
    /// The embedded sample store holds no sample under this path.
    EmbeddedSampleMissing { path: String },
}

/// The view of `SampleLoadError`: its texts as sequences of characters.
pub enum SampleLoadErrorView {
    IO { path: Seq<char>, source: Seq<char> },
    Decode { path: Seq<char>, source: Seq<char> },
    EmbeddedSampleMissing { path: Seq<char> },
}

impl View for SampleLoadError {
    type V = SampleLoadErrorView;

    open spec fn view(&self) -> SampleLoadErrorView {
        match self {
            SampleLoadError::IO { path, source } => SampleLoadErrorView::IO {
                path: path@,
                source: source@,
            },
            SampleLoadError::Decode { path, source } => SampleLoadErrorView::Decode {
                path: path@,
                source: source@,
            },
            SampleLoadError::EmbeddedSampleMissing { path } => {
                SampleLoadErrorView::EmbeddedSampleMissing { path: path@ }
            },
        }
    }
}

impl SampleLoadErrorView {
    /// The message of the error.
    pub open spec fn message(self) -> Seq<char> {
        match self {
            SampleLoadErrorView::IO { path, source } => {
                "Failed to read sample ("@ + path + "): "@ + source
            },
            SampleLoadErrorView::Decode { path, source } => {
                "Failed to decode sample ("@ + path + "): "@ + source
            },
            SampleLoadErrorView::EmbeddedSampleMissing { path } => {
                "Sample is missing from the embedded samples ("@ + path + ")"@
            },
        }
    }
}

impl SampleLoadError {
    /// The message of the error.
    pub fn message(&self) -> (message: String)
        ensures
            message@ == self@.message(),
    {
        match self {
            SampleLoadError::IO { path, source } => {
                String::from_str("Failed to read sample (").concat(path.as_str()).concat(
                    "): ",
                ).concat(source.as_str())
            },
            SampleLoadError::Decode { path, source } => {
                String::from_str("Failed to decode sample (").concat(path.as_str()).concat(
                    "): ",
                ).concat(source.as_str())
            },
            SampleLoadError::EmbeddedSampleMissing { path } => {
                String::from_str("Sample is missing from the embedded samples (").concat(
                    path.as_str(),
                ).concat(")")
            },
        }
    }
}

/// A sample was asked for that no loader has loaded.
#[derive(Debug, PartialEq, Eq)]
pub struct SampleNotFoundError {}

impl SampleNotFoundError {
    /// The message of the error.
    pub fn message(&self) -> (message: String)
        ensures
            message@ == "Sample has not been loaded yet"@,
    {
        String::from_str("Sample has not been loaded yet")
    }
}

/// Why the audio worker could not start or had to end.
#[derive(Debug, PartialEq, Eq)]
#[allow(inconsistent_fields)]
pub enum SoundThreadError {
    SampleLoad { source: SampleLoadError },
    /// The audio device could not be opened; `source` is the device's report.
    OpenSoundStream { source: String },
    /// The queue of operations was closed; `source` is the queue's report.
    Recv { source: String },
    /// An event could not be sent; `source` is the queue's report.
    SendEvent { source: String },
    /// The worker panicked; `join_error_str` describes what it panicked with.
    JoinPanic { join_error_str: String },
    /// No sink could be acquired for a sample.
    PlayError,
}

/// The view of `SoundThreadError`: its texts as sequences of characters.
#[allow(inconsistent_fields)]
pub enum SoundThreadErrorView {
    SampleLoad { source: SampleLoadErrorView },
    OpenSoundStream { source: Seq<char> },
    Recv { source: Seq<char> },
    SendEvent { source: Seq<char> },
    JoinPanic { join_error_str: Seq<char> },
    PlayError,
}

impl View for SoundThreadError {
    type V = SoundThreadErrorView;

    open spec fn view(&self) -> SoundThreadErrorView {
        match self {
            SoundThreadError::SampleLoad { source } => SoundThreadErrorView::SampleLoad { source: source@ },
            SoundThreadError::OpenSoundStream { source } => SoundThreadErrorView::OpenSoundStream { source: source@ },
            SoundThreadError::Recv { source } => SoundThreadErrorView::Recv { source: source@ },
            SoundThreadError::SendEvent { source } => SoundThreadErrorView::SendEvent { source: source@ },
            SoundThreadError::JoinPanic { join_error_str } => SoundThreadErrorView::JoinPanic { join_error_str: join_error_str@ },
            SoundThreadError::PlayError => SoundThreadErrorView::PlayError,
        }
    }
}

impl SoundThreadErrorView {
    /// The message of the error.
    pub open spec fn message(self) -> Seq<char> {
        match self {
            SoundThreadErrorView::SampleLoad { source } => {
                "SoundThread: Failed to read sample: "@ + source.message()
            },
            SoundThreadErrorView::OpenSoundStream { source } => {
                "SoundThread: Failed to open sound stream: "@ + source
            },
            SoundThreadErrorView::Recv { source } => {
                "SoundThread: Failed to recv() from channel (sender went away?): "@ + source
            },
            SoundThreadErrorView::SendEvent { source } => {
                "SoundThread: Failed to send() SoundThreadEvent to channel: "@ + source
            },
            SoundThreadErrorView::JoinPanic { join_error_str } => {
                "SoundThread: The thread panicked: "@ + join_error_str
            },
            SoundThreadErrorView::PlayError => {
                "SoundThread: Failed to play the sample"@
            },
        }
    }
}

impl SoundThreadError {
    /// The message of the error.
    pub fn message(&self) -> (message: String)
        ensures
            message@ == self@.message(),
    {
        match self {
            SoundThreadError::SampleLoad { source } => {
                let mut text = String::from_str("SoundThread: Failed to read sample: ");
                text.append(source.message().as_str());
                text
            },
            SoundThreadError::OpenSoundStream { source } => {
                let mut text = String::from_str("SoundThread: Failed to open sound stream: ");
                text.append(source.as_str());
                text
            },
            SoundThreadError::Recv { source } => {
                let mut text = String::from_str("SoundThread: Failed to recv() from channel (sender went away?): ");
                text.append(source.as_str());
                text
            },
            SoundThreadError::SendEvent { source } => {
                let mut text = String::from_str("SoundThread: Failed to send() SoundThreadEvent to channel: ");
                text.append(source.as_str());
                text
            },
            SoundThreadError::JoinPanic { join_error_str } => {
                let mut text = String::from_str("SoundThread: The thread panicked: ");
                text.append(join_error_str.as_str());
                text
            },
            SoundThreadError::PlayError => {
                String::from_str("SoundThread: Failed to play the sample")
            },
        }
    }
}

/// Why the gamepad worker could not start or had to end.
#[derive(Debug, PartialEq, Eq)]
pub enum GamepadThreadError {
    SendSoundThread,
    /// The queue of operations was closed; `source` is the queue's report.
    Recv { source: String },
    /// The queue of operations was closed while the worker waited on it;
    /// `source` is the queue's report.
    Recv2 { source: String },
    /// The gamepad library could not be initialized; `message` is its report.
    Gilrs { message: String },
    /// The worker panicked; `join_error_str` describes what it panicked with.
    JoinPanic { join_error_str: String },
}

/// The view of `GamepadThreadError`: its texts as sequences of characters.
pub enum GamepadThreadErrorView {
    SendSoundThread,
    Recv { source: Seq<char> },
    Recv2 { source: Seq<char> },
    Gilrs { message: Seq<char> },
    JoinPanic { join_error_str: Seq<char> },
}

impl View for GamepadThreadError {
    type V = GamepadThreadErrorView;

    open spec fn view(&self) -> GamepadThreadErrorView {
        match self {
            GamepadThreadError::SendSoundThread => GamepadThreadErrorView::SendSoundThread,
            GamepadThreadError::Recv { source } => GamepadThreadErrorView::Recv { source: source@ },
            GamepadThreadError::Recv2 { source } => GamepadThreadErrorView::Recv2 { source: source@ },
            GamepadThreadError::Gilrs { message } => GamepadThreadErrorView::Gilrs { message: message@ },
            GamepadThreadError::JoinPanic { join_error_str } => GamepadThreadErrorView::JoinPanic { join_error_str: join_error_str@ },
        }
    }
}

impl GamepadThreadErrorView {
    /// The message of the error.
    pub open spec fn message(self) -> Seq<char> {
        match self {
            GamepadThreadErrorView::SendSoundThread => {
                "GamepadThread: Failed to send message to SoundThread"@
            },
            GamepadThreadErrorView::Recv { source } => {
                "GamepadThread: Failed to recv() (sender went away?): "@ + source
            },
            GamepadThreadErrorView::Recv2 { source } => {
                "GamepadThread: Failed to recv() (sender went away?): "@ + source
            },
            GamepadThreadErrorView::Gilrs { message } => {
                "GamepadThread: Failed to initialize gamepad library: "@ + message
            },
            GamepadThreadErrorView::JoinPanic { join_error_str } => {
                "GamepadThread: The thread panicked: "@ + join_error_str
            },
        }
    }
}

impl GamepadThreadError {
    /// The message of the error.
    pub fn message(&self) -> (message: String)
        ensures
            message@ == self@.message(),
    {
        match self {
            GamepadThreadError::SendSoundThread => {
                String::from_str("GamepadThread: Failed to send message to SoundThread")
            },
            GamepadThreadError::Recv { source } => {
                let mut text = String::from_str("GamepadThread: Failed to recv() (sender went away?): ");
                text.append(source.as_str());
                text
            },
            GamepadThreadError::Recv2 { source } => {
                let mut text = String::from_str("GamepadThread: Failed to recv() (sender went away?): ");
                text.append(source.as_str());
                text
            },
            GamepadThreadError::Gilrs { message } => {
                let mut text = String::from_str("GamepadThread: Failed to initialize gamepad library: ");
                text.append(message.as_str());
                text
            },
            GamepadThreadError::JoinPanic { join_error_str } => {
                let mut text = String::from_str("GamepadThread: The thread panicked: ");
                text.append(join_error_str.as_str());
                text
            },
        }
    }
}

/// Why the application could not start.
#[derive(Debug, PartialEq, Eq)]
#[allow(inconsistent_fields)]
pub enum AppRunError {
    GamepadThread { source: GamepadThreadError },
    SoundThread { source: SoundThreadError },
    Config { source: ConfigError },
    /// The user interface could not start; `source` is its report.
    Iced { source: String },
}

/// The view of `AppRunError`: its texts as sequences of characters.
#[allow(inconsistent_fields)]
pub enum AppRunErrorView {
    GamepadThread { source: GamepadThreadErrorView },
    SoundThread { source: SoundThreadErrorView },
    Config { source: ConfigErrorView },
    Iced { source: Seq<char> },
}

impl View for AppRunError {
    type V = AppRunErrorView;

    open spec fn view(&self) -> AppRunErrorView {
        match self {
            AppRunError::GamepadThread { source } => AppRunErrorView::GamepadThread { source: source@ },
            AppRunError::SoundThread { source } => AppRunErrorView::SoundThread { source: source@ },
            AppRunError::Config { source } => AppRunErrorView::Config { source: source@ },
            AppRunError::Iced { source } => AppRunErrorView::Iced { source: source@ },
        }
    }
}

impl AppRunErrorView {
    /// The message of the error.
    pub open spec fn message(self) -> Seq<char> {
        match self {
            AppRunErrorView::GamepadThread { source } => {
                "Failed to start application (GamepadThread): "@ + source.message()
            },
            AppRunErrorView::SoundThread { source } => {
                "Failed to start application (SoundThread): "@ + source.message()
            },
            AppRunErrorView::Config { source } => {
                "Failed to start application because the configuration is not valid: "@ + source.message()
            },
            AppRunErrorView::Iced { source } => {
                "Failed to start application (iced): "@ + source
            },
        }
    }
}

impl AppRunError {
    /// The message of the error.
    pub fn message(&self) -> (message: String)
        ensures
            message@ == self@.message(),
    {
        match self {
            AppRunError::GamepadThread { source } => {
                let mut text = String::from_str("Failed to start application (GamepadThread): ");
                text.append(source.message().as_str());
                text
            },
            AppRunError::SoundThread { source } => {
                let mut text = String::from_str("Failed to start application (SoundThread): ");
                text.append(source.message().as_str());
                text
            },
            AppRunError::Config { source } => {
                let mut text = String::from_str("Failed to start application because the configuration is not valid: ");
                text.append(source.message().as_str());
                text
            },
            AppRunError::Iced { source } => {
                let mut text = String::from_str("Failed to start application (iced): ");
                text.append(source.as_str());
                text
            },
        }
    }
}

/// The description of what a worker thread panicked with: the name of the
/// type of the payload, and the payload itself where it is a text.
pub open spec fn thread_panic_text(type_id: Seq<char>, payload: Option<Seq<char>>) -> Seq<char> {
    "panic from thread: ["@ + type_id + "]: ["@ + (match payload {
        Some(text) => text,
        None => "???"@,
    }) + "]"@
}

/// Describes what a worker thread panicked with. A payload that is a text is
/// rendered as it is, any other as `???`.
pub fn readable_thread_panic_error(type_id: &str, payload: Option<&str>) -> (text: String)
    ensures
        text@ == thread_panic_text(
            type_id@,
            match payload {
                Some(payload) => Some(payload@),
                None => None,
            },
        ),
{
    let mut text = String::from_str("panic from thread: [");
    text.append(type_id);
    text.append("]: [");
    match payload {
        Some(payload) => text.append(payload),
        None => text.append("???"),
    }
    text.append("]");
    text
}

/// What is shown to the user for an error that stopped the application.
pub struct ErrorReport {
    /// What went wrong, in a few words.
    pub message: &'static str,
    /// The message of the error that is to blame.
    pub error: String,
}

/// The text of an error box: the heading, a colon, and the error.
pub open spec fn error_box_text(message: Seq<char>, error: Seq<char>) -> Seq<char> {
    message + ": "@ + error
}

/// The text of an error box.
pub fn error_msgbox_text(message: &str, error: &str) -> (text: String)
    ensures
        text@ == error_box_text(message@, error@),
{
    let mut text = String::from_str(message);
    text.append(": ");
    text.append(error);
    text
}

impl AppRunErrorView {
    /// Whether the error goes back to the configuration: it is one, or it
    /// is a sample of the configuration that could not be loaded.
    pub open spec fn blames_configuration(self) -> bool {
        ||| self is Config
        ||| self matches AppRunErrorView::SoundThread { source } && source is SampleLoad
    }

    /// The heading under which the error is shown to the user.
    pub open spec fn report_message(self) -> Seq<char> {
        if self.blames_configuration() {
            "The configuration is not valid"@
        } else {
            "Unexpected error"@
        }
    }

    /// The error whose message is shown to the user: the error of the
    /// configuration or of the sample where one of them is to blame, else
    /// the error as a whole.
    pub open spec fn report_error(self) -> Seq<char> {
        match self {
            AppRunErrorView::Config { source } => source.message(),
            AppRunErrorView::SoundThread { source: SoundThreadErrorView::SampleLoad { source } } => {
                source.message()
            },
            _ => self.message(),
        }
    }
}

impl AppRunError {
    /// What is shown to the user for this error.
    pub fn report(&self) -> (report: ErrorReport)
        ensures
            report.message@ == self@.report_message(),
            report.error@ == self@.report_error(),
    {
        match self {
            AppRunError::Config { source } => ErrorReport {
                message: "The configuration is not valid",
                error: source.message(),
            },
            AppRunError::SoundThread { source: SoundThreadError::SampleLoad { source } } => {
                ErrorReport { message: "The configuration is not valid", error: source.message() }
            },
            _ => ErrorReport { message: "Unexpected error", error: self.message() },
        }
    }
}

} // verus!
