//! Installing the software on a host over SSH: the commands that are run
//! there, and what their outcome means. The connection itself is the
//! caller's.

use crate::builder::KeyPair;
use crate::text::decimal;
use crate::text::decimal_string;
use vstd::prelude::*;
use vstd::string::StringExecFns;

verus! {

/// The port that hosts take SSH connections at.
pub const SSH_PORT: u16 = 22;

/// Seconds of silence after which a session is given up.
pub const INACTIVITY_TIMEOUT_SECS: u64 = 600;

/// Size of the buffer that the archive is read through.
pub const TAR_READ_BUFFER: usize = 256 * 1024;

pub const AUTH_FAILED: &'static str = "Authentication (with publickey) failed";

pub const AUTH_WITH_CERT_FAILED: &'static str = "Authentication (with publickey+cert) failed";

pub const NO_EXIT_STATUS: &'static str = "Program did not exit cleanly";

/// Installs to the hosts of a cluster as one user, with one key pair.
#[derive(Clone, Debug, PartialEq, Eq)]
pub struct Installer {
    key_pair: KeyPair,
    username: String,
    remote_directory: String,
    certificate: Option<String>,
    tar_file: Option<String>,
}

/// What is to be done about the archive that is sent to the hosts.
#[derive(Clone, Debug, PartialEq, Eq)]
pub enum TarPlan {
    /// The archive made before is still there: send it.
    Reuse(String),
    /// Make a new archive.
    Create,
}

impl Installer {
    pub closed spec fn spec_key_pair(&self) -> KeyPair {
        self.key_pair
    }

    pub closed spec fn spec_username(&self) -> Seq<char> {
        self.username@
    }

    /// The directory on the host that the software is unpacked in.
    pub closed spec fn spec_remote_directory(&self) -> Seq<char> {
        self.remote_directory@
    }

    pub closed spec fn spec_certificate(&self) -> Option<String> {
        self.certificate
    }

    /// The path of the archive made last.
    pub closed spec fn spec_tar_file(&self) -> Option<String> {
        self.tar_file
    }

    /// An installer that unpacks into `disco` below the user's home
    /// directory. It has made no archive yet.
    pub fn new(key_pair: KeyPair, username: &str, certificate: Option<String>) -> (installer:
        Installer)
        ensures
            installer.spec_key_pair() == key_pair,
            installer.spec_username() == username@,
            installer.spec_remote_directory() == "/home/"@ + username@ + "/disco"@,
            installer.spec_certificate() == certificate,
            installer.spec_tar_file() is None,
    {
        let mut remote_directory = String::from_str("/home/");
        remote_directory.append(username);
        remote_directory.append("/disco");
        Installer {
            key_pair,
            username: String::from_str(username),
            remote_directory,
            certificate,
            tar_file: None,
        }
    }

    pub fn key_pair(&self) -> (key_pair: &KeyPair)
        ensures
            *key_pair == self.spec_key_pair(),
    {
        &self.key_pair
    }

    pub fn username(&self) -> (username: &str)
        ensures
            username@ == self.spec_username(),
    {
        self.username.as_str()
    }

    pub fn remote_directory(&self) -> (directory: &str)
        ensures
            directory@ == self.spec_remote_directory(),
    {
        self.remote_directory.as_str()
    }

    pub fn certificate(&self) -> (certificate: Option<&String>)
        ensures
            match certificate {
                Some(c) => self.spec_certificate() == Some(*c),
                None => self.spec_certificate() is None,
            },
    {
        self.certificate.as_ref()
    }

    /// The command that makes the remote directory.
    pub fn mkdir_command(&self) -> (command: String)
        ensures
            command@ == "mkdir -p "@ + self.spec_remote_directory(),
    {
        let mut command = String::from_str("mkdir -p ");
        command.append(self.remote_directory.as_str());
        command
    }

    /// The command that unpacks the archive it reads into the remote
    /// directory.
    pub fn extract_command(&self) -> (command: String)
        ensures
            command@ == "tar -xzf - -C "@ + self.spec_remote_directory(),
    {
        let mut command = String::from_str("tar -xzf - -C ");
        command.append(self.remote_directory.as_str());
        command
    }

    /// Whether making the remote directory worked: it did exactly if the
    /// command's exit status is 0.
    pub fn check_mkdir(exit_status: u32) -> (result: Result<(), String>)
        ensures
            match result {
                Ok(()) => exit_status == 0,
                Err(text) => exit_status != 0 && text@
                    == "Failed to create target directory, exit status: "@ + decimal(
                    exit_status as nat,
                ),
            },
    {
        if exit_status != 0 {
            let mut text = String::from_str("Failed to create target directory, exit status: ");
            text.append(decimal_string(exit_status as u128).as_str());
            return Err(text);
        }
        Ok(())
    }

    /// Whether unpacking worked: it did exactly if the command's exit status
    /// is 0.
    pub fn check_extract(exit_status: u32) -> (result: Result<(), String>)
        ensures
            match result {
                Ok(()) => exit_status == 0,
                Err(text) => exit_status != 0 && text@
                    == "Remote tar extraction failed with exit status: "@ + decimal(
                    exit_status as nat,
                ),
            },
    {
        if exit_status != 0 {
            let mut text = String::from_str("Remote tar extraction failed with exit status: ");
            text.append(decimal_string(exit_status as u128).as_str());
            return Err(text);
        }
        Ok(())
    }

    /// The name of a new archive, made of the time in nanoseconds and the
    /// process id so that no two are alike.
    pub fn tar_file_name(timestamp: u128, pid: u32) -> (name: String)
        ensures
            name@ == "disco_"@ + decimal(timestamp as nat) + "_"@ + decimal(pid as nat)
                + ".tar.gz"@,
    {
        let mut name = String::from_str("disco_");
        name.append(decimal_string(timestamp).as_str());
        name.append("_");
        name.append(decimal_string(pid as u128).as_str());
        name.append(".tar.gz");
        name
    }

    /// The path of the archive made last, for the caller to see whether it
    /// is still there.
    pub fn tar_file(&self) -> (path: Option<&String>)
        ensures
            match path {
                Some(p) => self.spec_tar_file() == Some(*p),
                None => self.spec_tar_file() is None,
            },
    {
        self.tar_file.as_ref()
    }

    /// Whether to send the archive made last or to make a new one. The old
    /// one is sent if there is one and its file exists.
    pub fn tar_plan(&self, exists: bool) -> (plan: TarPlan)
        ensures
            plan is Reuse == (exists && self.spec_tar_file() is Some),
            plan matches TarPlan::Reuse(path) ==> path@ == self.spec_tar_file()->0@,
    {
        match &self.tar_file {
            Some(path) => {
                if exists {
                    TarPlan::Reuse(path.clone())
                } else {
                    TarPlan::Create
                }
            },
            None => TarPlan::Create,
        }
    }

    /// Remembers the archive that was just made.
    pub fn set_tar_file(&mut self, path: String)
        ensures
            final(self).spec_tar_file() == Some(path),
            final(self).spec_key_pair() == old(self).spec_key_pair(),
            final(self).spec_username() == old(self).spec_username(),
            final(self).spec_remote_directory() == old(self).spec_remote_directory(),
            final(self).spec_certificate() == old(self).spec_certificate(),
    {
        self.tar_file = Some(path);
    }
}

/// What a running command sends over its channel.
#[derive(Clone, Debug, PartialEq, Eq)]
pub enum ChannelEvent {
    /// Standard output.
    Data(Vec<u8>),
    /// Output of another kind; kind 1 is standard error.
    ExtendedData { data: Vec<u8>, ext: u32 },
    /// The command has ended with this status.
    ExitStatus(u32),
    /// Anything else.
    Other,
}

/// Where the bytes of an event go.
#[derive(Clone, Debug, PartialEq, Eq)]
pub enum ChannelOutput {
    Stdout(Vec<u8>),
    Stderr(Vec<u8>),
    Nothing,
}

/// Follows the events of one command to learn its exit status.
#[derive(Clone, Copy, Debug, PartialEq, Eq, Structural)]
pub struct ExitTracker {
    pub code: Option<u32>,
}

/// Where the bytes of an event go: data to standard output, extended data
/// of kind 1 to standard error, everything else nowhere.
pub open spec fn output_of(event: ChannelEvent) -> ChannelOutput {
    match event {
        ChannelEvent::Data(data) => ChannelOutput::Stdout(data),
        ChannelEvent::ExtendedData { data, ext } => if ext == 1 {
            ChannelOutput::Stderr(data)
        } else {
            ChannelOutput::Nothing
        },
        _ => ChannelOutput::Nothing,
    }
}

/// The exit status known after an event: the one the event brings, else the
/// one known before.
pub open spec fn code_after(code: Option<u32>, event: ChannelEvent) -> Option<u32> {
    match event {
        ChannelEvent::ExitStatus(exit_status) => Some(exit_status),
        _ => code,
    }
}

impl ExitTracker {
    pub fn new() -> (tracker: ExitTracker)
        ensures
            tracker.code is None,
    {
        ExitTracker { code: None }
    }

    /// Takes the next event of the channel.
    pub fn on_event(&mut self, event: ChannelEvent) -> (output: ChannelOutput)
        ensures
            output == output_of(event),
            final(self).code == code_after(old(self).code, event),
    {
        match event {
            ChannelEvent::Data(data) => ChannelOutput::Stdout(data),
            ChannelEvent::ExtendedData { data, ext } => {
                if ext == 1 {
                    ChannelOutput::Stderr(data)
                } else {
                    ChannelOutput::Nothing
                }
            },
            ChannelEvent::ExitStatus(exit_status) => {
                self.code = Some(exit_status);
                ChannelOutput::Nothing
            },
            ChannelEvent::Other => ChannelOutput::Nothing,
        }
    }

    /// The exit status, once the channel has ended. A command that sent none
    /// did not end cleanly.
    pub fn finish(self) -> (result: Result<u32, String>)
        ensures
            match self.code {
                Some(code) => result == Ok::<u32, String>(code),
                None => result matches Err(text) && text@ == NO_EXIT_STATUS@,
            },
    {
        match self.code {
            Some(exit_code) => Ok(exit_code),
            None => Err(String::from_str(NO_EXIT_STATUS)),
        }
    }
}

/// The lines of a text, as std's `str::lines` gives them.
pub uninterp spec fn text_lines(text: Seq<char>) -> Seq<Seq<char>>;

/// Calls std's `str::lines` and collects what it yields. The lines depend
/// on the text alone.
#[verifier::external_body]
pub(crate) fn lines(text: &str) -> (lines: Vec<String>)
    ensures
        lines@.len() == text_lines(text@).len(),
        forall|i: int| 0 <= i < lines@.len() ==> (#[trigger] lines@[i])@ == text_lines(text@)[i],
{
    let mut lines = Vec::new();
    for line in text.lines() {
        lines.push(line.to_string());
    }
    lines
}

/// Whether the login worked: it did exactly if the server said so.
pub fn auth_outcome(with_certificate: bool, success: bool) -> (result: Result<(), String>)
    ensures
        match result {
            Ok(()) => success,
            Err(text) => !success && text@ == if with_certificate {
                AUTH_WITH_CERT_FAILED@
            } else {
                AUTH_FAILED@
            },
        },
{
    if success {
        Ok(())
    } else if with_certificate {
        Err(String::from_str(AUTH_WITH_CERT_FAILED))
    } else {
        Err(String::from_str(AUTH_FAILED))
    }
}

/// The output of a command that is run for its output: the output if the
/// exit code is 0, else the text that tells the exit code.
pub fn command_output(stdout: String, exit_code: u32) -> (result: Result<String, String>)
    ensures
        match result {
            Ok(output) => exit_code == 0 && output == stdout,
            Err(text) => exit_code != 0 && text@ == "Command failed with exit code "@ + decimal(
                exit_code as nat,
            ),
        },
{
    if exit_code != 0 {
        let mut text = String::from_str("Command failed with exit code ");
        text.append(decimal_string(exit_code as u128).as_str());
        return Err(text);
    }
    Ok(stdout)
}

/// What is said of an output that is not one line.
pub open spec fn not_one_line_text(count: nat, output: Seq<char>) -> Seq<char> {
    "Expected exactly one line of output, but got "@ + decimal(count) + " lines: "@ + output
}

/// The one line of an output that has to be one line.
pub fn single_line(output: &str) -> (result: Result<String, String>)
    ensures
        match result {
            Ok(line) => text_lines(output@).len() == 1 && line@ == text_lines(output@)[0],
            Err(text) => text_lines(output@).len() != 1 && text@ == not_one_line_text(
                text_lines(output@).len(),
                output@,
            ),
        },
{
    let mut lines = lines(output);
    if lines.len() != 1 {
        let mut text = String::from_str("Expected exactly one line of output, but got ");
        text.append(decimal_string(lines.len() as u128).as_str());
        text.append(" lines: ");
        text.append(output);
        return Err(text);
    }
    Ok(lines.remove(0))
}

} // verus!
