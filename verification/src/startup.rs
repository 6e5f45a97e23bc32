//! What is decided before any worker starts: whether the process may run
//! at all, where its configuration is, and where its log goes. Each
//! failure here ends the process with a message and a failure code.

use crate::caps::{is_capable, net_capable, CapData};
use crate::log::join;
use crate::relay::Io;
use vstd::prelude::*;
use vstd::string::*;

verus! {

/// Exit code of a clean shutdown.
pub const EXIT_SUCCESS: u8 = 0;

/// Exit code of a failed startup.
pub const EXIT_FAILURE: u8 = 1;

/// Permission bit that lets the owner write.
pub const OWNER_WRITE: u32 = 0o200;

/// A failure to set up logging.
#[derive(Debug, PartialEq, Eq)]
pub struct LogError {
    details: String,
}

impl View for LogError {
    type V = Seq<char>;

    closed spec fn view(&self) -> Seq<char> {
        self.details@
    }
}

impl LogError {
    /// The text a logging failure is reported with.
    pub open spec fn spec_message(details: Seq<char>) -> Seq<char> {
        "Logging error: "@ + details
    }

    /// A logging failure with the given cause.
    pub fn cause(details: &str) -> (error: LogError)
        ensures
            error@ == details@,
    {
        LogError { details: String::from_str(details) }
    }

    /// The cause given when the failure was made.
    pub fn details(&self) -> (details: &str)
        ensures
            details@ == self@,
    {
        self.details.as_str()
    }

    /// The failure as it is printed.
    pub fn message(&self) -> (text: String)
        ensures
            text@ == LogError::spec_message(self@),
    {
        join("Logging error: ", self.details.as_str())
    }
}

/// One variable of the environment, as it was found.
#[derive(Debug, PartialEq, Eq)]
pub enum EnvVar {
    /// Set, to this value.
    Present(String),
    /// Not set.
    NotPresent,
    /// Set to something that is not Unicode.
    NotUnicode,
}

/// The variables the process reads.
#[derive(Clone, Copy, Debug, PartialEq, Eq, Structural)]
pub enum Variable {
    ConfigFile,
    ConfigurationDirectory,
    LogsDirectory,
}

/// Where the configuration file is.
#[derive(Debug, PartialEq, Eq)]
pub enum ConfigSource {
    /// At this path.
    File(String),
    /// In this directory, under the name of the application with the
    /// extension `.json`.
    Directory(String),
}

/// What the environment asks for.
#[derive(Debug, PartialEq, Eq)]
pub struct Args {
    pub config: ConfigSource,
    /// Directory for the log file, if one was named.
    pub logdir: Option<String>,
}

/// Why the environment cannot be used.
#[derive(Clone, Copy, Debug, PartialEq, Eq, Structural)]
pub enum ArgsError {
    /// Neither variable that locates the configuration is set.
    MissingConfig,
    /// Both variables that locate the configuration are set.
    ConflictingConfig,
    /// The variable holds something that is not Unicode.
    NotUnicode(Variable),
}

/// What the three variables amount to. Exactly one of the two that locate
/// the configuration must be set; the log directory is optional; none may
/// hold anything but Unicode. The variables are judged in the order
/// configuration file, configuration directory, log directory, and the
/// first fault is reported.
pub open spec fn resolve(config_file: EnvVar, config_dir: EnvVar, logs_dir: EnvVar) -> Result<
    Args,
    ArgsError,
> {
    if config_file is NotUnicode {
        Err(ArgsError::NotUnicode(Variable::ConfigFile))
    } else if config_dir is NotUnicode {
        Err(ArgsError::NotUnicode(Variable::ConfigurationDirectory))
    } else if config_file is Present && config_dir is Present {
        Err(ArgsError::ConflictingConfig)
    } else if config_file is NotPresent && config_dir is NotPresent {
        Err(ArgsError::MissingConfig)
    } else if logs_dir is NotUnicode {
        Err(ArgsError::NotUnicode(Variable::LogsDirectory))
    } else {
        Ok(
            Args {
                config: match config_file {
                    EnvVar::Present(path) => ConfigSource::File(path),
                    _ => ConfigSource::Directory(config_dir->Present_0),
                },
                logdir: match logs_dir {
                    EnvVar::Present(dir) => Some(dir),
                    _ => None,
                },
            },
        )
    }
}

impl Variable {
    /// The name of the variable in the environment.
    pub open spec fn spec_name(self) -> Seq<char> {
        match self {
            Variable::ConfigFile => "CONFIG_FILE"@,
            Variable::ConfigurationDirectory => "CONFIGURATION_DIRECTORY"@,
            Variable::LogsDirectory => "LOGS_DIRECTORY"@,
        }
    }

    /// The name of the variable in the environment.
    pub fn name(&self) -> (name: &'static str)
        ensures
            name@ == self.spec_name(),
    {
        match self {
            Variable::ConfigFile => "CONFIG_FILE",
            Variable::ConfigurationDirectory => "CONFIGURATION_DIRECTORY",
            Variable::LogsDirectory => "LOGS_DIRECTORY",
        }
    }
}

impl Args {
    /// Judges the three variables of the environment.
    pub fn new(config_file: EnvVar, config_dir: EnvVar, logs_dir: EnvVar) -> (args: Result<
        Args,
        ArgsError,
    >)
        ensures
            args == resolve(config_file, config_dir, logs_dir),
    {
        let config = match (config_file, config_dir) {
            (EnvVar::NotUnicode, _) => {
                return Err(ArgsError::NotUnicode(Variable::ConfigFile));
            },
            (_, EnvVar::NotUnicode) => {
                return Err(ArgsError::NotUnicode(Variable::ConfigurationDirectory));
            },
            (EnvVar::Present(_), EnvVar::Present(_)) => {
                return Err(ArgsError::ConflictingConfig);
            },
            (EnvVar::NotPresent, EnvVar::NotPresent) => {
                return Err(ArgsError::MissingConfig);
            },
            (EnvVar::Present(path), EnvVar::NotPresent) => ConfigSource::File(path),
            (EnvVar::NotPresent, EnvVar::Present(dir)) => ConfigSource::Directory(dir),
        };
        let logdir = match logs_dir {
            EnvVar::NotUnicode => {
                return Err(ArgsError::NotUnicode(Variable::LogsDirectory));
            },
            EnvVar::Present(dir) => Some(dir),
            EnvVar::NotPresent => None,
        };
        Ok(Args { config, logdir })
    }
}

impl ArgsError {
    /// The text the fault is reported with.
    pub open spec fn spec_message(self) -> Seq<char> {
        match self {
            ArgsError::MissingConfig =>
                "Env variable \"CONFIG_FILE\" or \"CONFIGURATION_DIRECTORY\" not found"@,
            ArgsError::ConflictingConfig =>
                "Env variables \"CONFIG_FILE\" and \"CONFIGURATION_DIRECTORY\" are both set"@,
            ArgsError::NotUnicode(variable) => "Non-unicode env variable \""@
                + variable.spec_name() + "\""@,
        }
    }

    /// The fault as it is printed.
    pub fn message(&self) -> (text: String)
        ensures
            text@ == self.spec_message(),
    {
        match self {
            ArgsError::MissingConfig => String::from_str(
                "Env variable \"CONFIG_FILE\" or \"CONFIGURATION_DIRECTORY\" not found",
            ),
            ArgsError::ConflictingConfig => String::from_str(
                "Env variables \"CONFIG_FILE\" and \"CONFIGURATION_DIRECTORY\" are both set",
            ),
            ArgsError::NotUnicode(variable) => {
                let mut text = String::from_str("Non-unicode env variable \"");
                text.append(variable.name());
                text.append("\"");
                text
            },
        }
    }
}

/// What a look at a directory found.
#[derive(Clone, Copy, Debug, PartialEq, Eq, Structural)]
pub struct DirProbe {
    pub exists: bool,
    pub is_dir: bool,
    /// Permission bits, if the metadata could be read.
    pub mode: Option<u32>,
}

/// Where the log goes.
#[derive(Clone, Copy, Debug, PartialEq, Eq, Structural)]
pub enum LogSink {
    /// To the file named after the application in the log directory.
    File,
    /// To standard output.
    Stdout,
}

/// Whether the owner may write into the directory that `probe` describes.
pub open spec fn writable(probe: DirProbe) -> bool {
    &&& probe.exists
    &&& probe.is_dir
    &&& probe.mode matches Some(mode) && mode & OWNER_WRITE != 0
}

/// The log goes to a file exactly when a log directory is named and the
/// owner may write into it; otherwise it goes to standard output.
pub open spec fn sink_for(logdir: Option<DirProbe>) -> LogSink {
    match logdir {
        Some(probe) => if writable(probe) {
            LogSink::File
        } else {
            LogSink::Stdout
        },
        None => LogSink::Stdout,
    }
}

/// Picks where the log goes; `logdir` is what a look at the log directory
/// found, if one is named.
pub fn choose_sink(logdir: Option<DirProbe>) -> (sink: LogSink)
    ensures
        sink == sink_for(logdir),
{
    match logdir {
        Some(probe) => {
            let can_write = match probe.mode {
                Some(mode) => mode & OWNER_WRITE != 0,
                None => false,
            };
            if probe.exists && probe.is_dir && can_write {
                LogSink::File
            } else {
                LogSink::Stdout
            }
        },
        None => LogSink::Stdout,
    }
}

/// Why the configuration file cannot be read.
#[derive(Debug, PartialEq, Eq)]
pub enum ConfigFault {
    /// Nothing is at the path.
    NotFound,
    /// Something is at the path, but not a file.
    NotAFile,
    /// The file could not be read.
    Unreadable { error: String },
    /// The file does not hold a configuration.
    Invalid { error: String },
}

/// What a look at the configuration path allows: the file is read only
/// if something is there and it is a file.
pub open spec fn path_fault(exists: bool, is_file: bool) -> Option<ConfigFault> {
    if !exists {
        Some(ConfigFault::NotFound)
    } else if !is_file {
        Some(ConfigFault::NotAFile)
    } else {
        None
    }
}

/// Judges a look at the configuration path.
pub fn check_config_path(exists: bool, is_file: bool) -> (fault: Option<ConfigFault>)
    ensures
        fault == path_fault(exists, is_file),
{
    if !exists {
        Some(ConfigFault::NotFound)
    } else if !is_file {
        Some(ConfigFault::NotAFile)
    } else {
        None
    }
}

impl ConfigFault {
    /// The text the fault is reported with.
    pub open spec fn spec_message(self) -> Seq<char> {
        match self {
            ConfigFault::NotFound => "Configuration file not found"@,
            ConfigFault::NotAFile => "Provided configuration path is not a file"@,
            ConfigFault::Unreadable { error } => error@,
            ConfigFault::Invalid { error } => "Failed to deserialize configuration file - "@
                + error@,
        }
    }

    /// The fault as it is printed.
    pub fn message(&self) -> (text: String)
        ensures
            text@ == self.spec_message(),
    {
        match self {
            ConfigFault::NotFound => String::from_str("Configuration file not found"),
            ConfigFault::NotAFile => String::from_str("Provided configuration path is not a file"),
            ConfigFault::Unreadable { error } => String::from_str(error.as_str()),
            ConfigFault::Invalid { error } => join(
                "Failed to deserialize configuration file - ",
                error.as_str(),
            ),
        }
    }
}

/// Why the process may not run.
#[derive(Debug, PartialEq, Eq)]
pub enum CapabilityFault {
    /// The capabilities could not be read.
    Probe { error: String },
    /// One of the two network capabilities is not effective.
    Missing,
}

/// What the probe of the capabilities allows: the process runs only if
/// the probe worked and both network capabilities are effective.
pub open spec fn capability_fault(probe: Io<[CapData; 2]>) -> Option<CapabilityFault> {
    match probe {
        Err(error) => Some(CapabilityFault::Probe { error }),
        Ok(words) => if net_capable(words@) {
            None
        } else {
            Some(CapabilityFault::Missing)
        },
    }
}

/// Judges the probe of the capabilities. This comes first at startup,
/// before any socket is opened.
pub fn check_capabilities(probe: Io<[CapData; 2]>) -> (fault: Option<CapabilityFault>)
    ensures
        fault == capability_fault(probe),
{
    match probe {
        Err(error) => Some(CapabilityFault::Probe { error }),
        Ok(words) => {
            if is_capable(&words) {
                None
            } else {
                Some(CapabilityFault::Missing)
            }
        },
    }
}

impl CapabilityFault {
    /// The text the fault is reported with.
    pub open spec fn spec_message(self) -> Seq<char> {
        match self {
            CapabilityFault::Probe { error } => error@,
            CapabilityFault::Missing =>
                "Both CAP_NET_ADMIN & CAP_NET_BIND_SERVICE need to be effective"@,
        }
    }

    /// The fault as it is printed.
    pub fn message(&self) -> (text: String)
        ensures
            text@ == self.spec_message(),
    {
        match self {
            CapabilityFault::Probe { error } => String::from_str(error.as_str()),
            CapabilityFault::Missing => String::from_str(
                "Both CAP_NET_ADMIN & CAP_NET_BIND_SERVICE need to be effective",
            ),
        }
    }
}

/// The exit code of the process: success only if startup went through.
pub fn exit_code(started: bool) -> (code: u8)
    ensures
        code == if started {
            EXIT_SUCCESS
        } else {
            EXIT_FAILURE
        },
        (code == 0) == started,
{
    if started {
        EXIT_SUCCESS
    } else {
        EXIT_FAILURE
    }
}

} // verus!
