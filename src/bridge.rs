//! The command bridge: host operations, each performed by one run of the
//! backend's script, whose exit status picks its standard output or its
//! standard error as the answer.

use vstd::prelude::*;
use vstd::utf8::{decode_utf8, valid_utf8};
use crate::commands::{
    call_args, call_command, launch_prefix, shell_dir, texts, CommandLine, Platform,
};
use crate::decimal::{decimal, decimal_text};

verus! {

/// The operations that the host offers to its user interface.
#[derive(Clone, Debug)]
pub enum HostCommand {
    Login { email: String, password: String },
    GetEmails { folder: String, search: String, offset: u32 },
    GetEmailContent { id: String },
    GetFolders,
    MarkEmail { id: String, mark: String, folder: String },
    DeleteEmail { id: String, folder: String },
    MoveEmail { id: String, source: String, destination: String },
}

/// The backend's name for the operation.
pub open spec fn operation_of(c: HostCommand) -> Seq<char> {
    match c {
        HostCommand::Login { .. } => "login"@,
        HostCommand::GetEmails { .. } => "get_emails"@,
        HostCommand::GetEmailContent { .. } => "get_email_content"@,
        HostCommand::GetFolders => "get_folders"@,
        HostCommand::MarkEmail { .. } => "mark_email"@,
        HostCommand::DeleteEmail { .. } => "delete_email"@,
        HostCommand::MoveEmail { .. } => "move_email"@,
    }
}

/// The operation's arguments, in the order the backend takes them.
pub open spec fn arguments_of(c: HostCommand) -> Seq<Seq<char>> {
    match c {
        HostCommand::Login { email, password } => seq![email@, password@],
        HostCommand::GetEmails { folder, search, offset } => seq![
            folder@,
            search@,
            decimal(offset as nat),
        ],
        HostCommand::GetEmailContent { id } => seq![id@],
        HostCommand::GetFolders => seq![],
        HostCommand::MarkEmail { id, mark, folder } => seq![id@, mark@, folder@],
        HostCommand::DeleteEmail { id, folder } => seq![id@, folder@],
        HostCommand::MoveEmail { id, source, destination } => seq![id@, source@, destination@],
    }
}

impl HostCommand {
    pub fn operation(&self) -> (r: &'static str)
        ensures
            r@ == operation_of(*self),
    {
        match self {
            HostCommand::Login { .. } => "login",
            HostCommand::GetEmails { .. } => "get_emails",
            HostCommand::GetEmailContent { .. } => "get_email_content",
            HostCommand::GetFolders => "get_folders",
            HostCommand::MarkEmail { .. } => "mark_email",
            HostCommand::DeleteEmail { .. } => "delete_email",
            HostCommand::MoveEmail { .. } => "move_email",
        }
    }

    pub fn arguments(&self) -> (r: Vec<String>)
        ensures
            texts(r@) == arguments_of(*self),
    {
        let r = match self {
            HostCommand::Login { email, password } => vec![email.clone(), password.clone()],
            HostCommand::GetEmails { folder, search, offset } => vec![
                folder.clone(),
                search.clone(),
                decimal_text(*offset as u64),
            ],
            HostCommand::GetEmailContent { id } => vec![id.clone()],
            HostCommand::GetFolders => Vec::new(),
            HostCommand::MarkEmail { id, mark, folder } => vec![
                id.clone(),
                mark.clone(),
                folder.clone(),
            ],
            HostCommand::DeleteEmail { id, folder } => vec![id.clone(), folder.clone()],
            HostCommand::MoveEmail { id, source, destination } => vec![
                id.clone(),
                source.clone(),
                destination.clone(),
            ],
        };
        assert(texts(r@) =~= arguments_of(*self));
        r
    }

    /// The one-shot backend run that performs this operation.
    pub fn command_line(&self, p: Platform) -> (r: CommandLine)
        ensures
            r.is(
                launch_prefix(p)[0],
                call_args(p, operation_of(*self), arguments_of(*self)),
                Some(shell_dir()),
            ),
    {
        let args = self.arguments();
        call_command(p, self.operation(), &args)
    }
}

/// Why a bridged operation failed.
#[derive(Clone, Debug)]
pub enum BridgeError {
    /// The backend exited with a failure; its standard error, as it wrote it.
    Backend(String),
    /// The backend's output is not valid UTF-8.
    InvalidText,
    /// The backend could not be started; what the system said.
    SpawnFailed(String),
}

impl BridgeError {
    /// The text to show the user.
    pub fn message(&self) -> (r: String)
        ensures
            r@ == match *self {
                BridgeError::Backend(e) => e@,
                BridgeError::InvalidText => "backend output is not valid UTF-8"@,
                BridgeError::SpawnFailed(e) => e@,
            },
    {
        match self {
            BridgeError::Backend(e) => e.clone(),
            BridgeError::InvalidText => String::from_str("backend output is not valid UTF-8"),
            BridgeError::SpawnFailed(e) => e.clone(),
        }
    }
}

/// Relies on `String::from_utf8`: it accepts exactly the valid UTF-8 byte
/// strings, and decodes them.
#[verifier::external_body]
fn text_from_utf8(bytes: Vec<u8>) -> (r: Option<String>)
    ensures
        match r {
            Some(s) => valid_utf8(bytes@) && s@ == decode_utf8(bytes@),
            None => !valid_utf8(bytes@),
        },
{
    String::from_utf8(bytes).ok()
}

/// The answer of a backend run that exited with `status` (none when a signal
/// ended it) after writing `stdout` and `stderr`: the output on success, the
/// error text otherwise; either one only if it is valid UTF-8, never altered.
pub fn bridge_result(status: Option<i32>, stdout: Vec<u8>, stderr: Vec<u8>) -> (r: Result<
    String,
    BridgeError,
>)
    ensures
        status == Some(0i32) ==> match r {
            Ok(s) => valid_utf8(stdout@) && s@ == decode_utf8(stdout@),
            Err(e) => !valid_utf8(stdout@) && e matches BridgeError::InvalidText,
        },
        status != Some(0i32) ==> match r {
            Ok(_) => false,
            Err(BridgeError::Backend(e)) => valid_utf8(stderr@) && e@ == decode_utf8(stderr@),
            Err(BridgeError::InvalidText) => !valid_utf8(stderr@),
            Err(BridgeError::SpawnFailed(_)) => false,
        },
{
    let succeeded = match status {
        Some(c) => c == 0,
        None => false,
    };
    if succeeded {
        match text_from_utf8(stdout) {
            Some(s) => Ok(s),
            None => Err(BridgeError::InvalidText),
        }
    } else {
        match text_from_utf8(stderr) {
            Some(e) => Err(BridgeError::Backend(e)),
            None => Err(BridgeError::InvalidText),
        }
    }
}

} // verus!
