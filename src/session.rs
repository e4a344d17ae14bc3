use vstd::prelude::*;
use vstd::string::StringExecFns;

use crate::access::{auth_can_access_file, may_access, password_matches};
use crate::dirs::{parent_directory, parent_of, resolve_directory, resolved_directory};
use crate::port::{parse_port_argument, port_address, DataAddress};
use crate::status::{
    ConnectionState, TransferMode, TransferStructure, TransferType, mode_name, mode_of_code,
    structure_name, structure_of_code, transfer_type_name, type_of_code,
};
use crate::text::{arg_of, same_text, split_command, verb_of};

verus! {

/// Seconds given to opening the data connection that `PORT` asks for.
pub const DATA_CONNECT_TIMEOUT_SECS: u64 = 5;

/// How many passwords a user may try after one `USER` command.
pub const MAX_PASSWORD_ATTEMPTS: u8 = 5;

/// What a session waits for before it reads its next command.
pub enum Pending {
    /// Nothing: the next line is a command.
    Idle,
    /// A password was asked for `user`; the next line should be `PASS`.
    Password { user: String, attempts: u8 },
    /// The password given for `user` is being checked.
    Verdict { user: String, attempts: u8 },
    /// The data connection is being opened.
    DataChannel,
    /// The existence of the directory that `CWD` asked for is being checked.
    Directory { candidate: String },
    /// A file is being sent on the data channel.
    Retrieve,
    /// A file is being received from the data channel.
    Store,
    /// A directory listing is being sent on the data channel.
    List,
}

/// What the session asks of the connection that carries it.
#[derive(Debug, PartialEq, Eq)]
pub enum Action {
    /// Send these reply lines and read the next command.
    Reply(String),
    /// Send these reply lines and end the session.
    Close(String),
    /// Drop any data channel and open one to this endpoint, giving up after
    /// `DATA_CONNECT_TIMEOUT_SECS`.
    Connect(DataAddress),
    /// Check `password` against the credential record of `user`.
    VerifyPassword { user: String, password: String },
    /// Tell whether this directory exists.
    CheckDirectory(String),
    /// Send the file at `path` on the data channel, chunk by chunk, encoded for `transfer_type`.
    Retrieve { path: String, transfer_type: TransferType },
    /// Store what the data channel carries, up to its end, in the file at `path`.
    Store { path: String },
    /// Send the listing of the directory at `path` on the data channel.
    List { path: String },
}

/// How a file transfer on the data channel ended.
#[derive(Clone, Copy, Debug, PartialEq, Eq, Structural)]
pub enum TransferOutcome {
    Completed,
    NotFound,
    Failed,
}

/// The result of the work that an `Action` asked for.
#[derive(Clone, Copy, Debug, PartialEq, Eq, Structural)]
pub enum Outcome {
    PasswordChecked(bool),
    DataChannel(bool),
    Directory(bool),
    Transfer(TransferOutcome),
}

pub ghost enum PendingModel {
    Idle,
    Password { user: Seq<char>, attempts: nat },
    Verdict { user: Seq<char>, attempts: nat },
    DataChannel,
    Directory { candidate: Seq<char> },
    Retrieve,
    Store,
    List,
}

pub ghost enum ActionModel {
    Reply(Seq<char>),
    Close(Seq<char>),
    Connect(DataAddress),
    VerifyPassword { user: Seq<char>, password: Seq<char> },
    CheckDirectory(Seq<char>),
    Retrieve { path: Seq<char>, transfer_type: TransferType },
    Store { path: Seq<char> },
    List { path: Seq<char> },
}

/// The state of one control connection.
pub ghost struct SessionModel {
    pub auth: ConnectionState,
    pub transfer_type: TransferType,
    pub mode: TransferMode,
    pub structure: TransferStructure,
    pub cwd: Seq<char>,
    pub data_open: bool,
    pub pending: PendingModel,
}

/// One FTP control connection: authentication, transfer parameters, the current directory and
/// whether a data channel is open. It decides; the connection that carries it does the work.
pub struct Session {
    auth_state: ConnectionState,
    transfer_type: TransferType,
    transfer_mode: TransferMode,
    transfer_structure: TransferStructure,
    current_directory: String,
    data_channel: bool,
    pending: Pending,
}

impl View for Pending {
    type V = PendingModel;

    open spec fn view(&self) -> PendingModel {
        match self {
            Pending::Idle => PendingModel::Idle,
            Pending::Password { user, attempts } => PendingModel::Password {
                user: user@,
                attempts: *attempts as nat,
            },
            Pending::Verdict { user, attempts } => PendingModel::Verdict {
                user: user@,
                attempts: *attempts as nat,
            },
            Pending::DataChannel => PendingModel::DataChannel,
            Pending::Directory { candidate } => PendingModel::Directory { candidate: candidate@ },
            Pending::Retrieve => PendingModel::Retrieve,
            Pending::Store => PendingModel::Store,
            Pending::List => PendingModel::List,
        }
    }
}

impl View for Action {
    type V = ActionModel;

    open spec fn view(&self) -> ActionModel {
        match self {
            Action::Reply(s) => ActionModel::Reply(s@),
            Action::Close(s) => ActionModel::Close(s@),
            Action::Connect(a) => ActionModel::Connect(*a),
            Action::VerifyPassword { user, password } => ActionModel::VerifyPassword {
                user: user@,
                password: password@,
            },
            Action::CheckDirectory(s) => ActionModel::CheckDirectory(s@),
            Action::Retrieve { path, transfer_type } => ActionModel::Retrieve {
                path: path@,
                transfer_type: *transfer_type,
            },
            Action::Store { path } => ActionModel::Store { path: path@ },
            Action::List { path } => ActionModel::List { path: path@ },
        }
    }
}

impl View for Session {
    type V = SessionModel;

    closed spec fn view(&self) -> SessionModel {
        SessionModel {
            auth: self.auth_state,
            transfer_type: self.transfer_type,
            mode: self.transfer_mode,
            structure: self.transfer_structure,
            cwd: self.current_directory@,
            data_open: self.data_channel,
            pending: self.pending@,
        }
    }
}

/// The state of a connection just accepted.
pub open spec fn initial_model() -> SessionModel {
    SessionModel {
        auth: ConnectionState::NotLoggedIn,
        transfer_type: TransferType::Ascii,
        mode: TransferMode::Stream,
        structure: TransferStructure::File,
        cwd: "/"@,
        data_open: false,
        pending: PendingModel::Idle,
    }
}

/// A well-formed state: the current directory is absolute, and a login in progress has
/// attempts left.
pub open spec fn model_wf(m: SessionModel) -> bool {
    &&& m.cwd.len() > 0 && m.cwd[0] == '/'
    &&& match m.pending {
        PendingModel::Password { attempts, .. } => attempts < MAX_PASSWORD_ATTEMPTS,
        PendingModel::Verdict { attempts, .. } => attempts < MAX_PASSWORD_ATTEMPTS,
        PendingModel::Directory { candidate } => candidate.len() > 0 && candidate[0] == '/',
        _ => true,
    }
}

/// Whether the session reads a line next: it waits for nothing else and has not quit.
pub open spec fn reads_line(m: SessionModel) -> bool {
    (m.pending is Idle || m.pending is Password) && m.auth != ConnectionState::Disconnected
}

/// Whether `o` is the result that the session waits for.
pub open spec fn expects(m: SessionModel, o: Outcome) -> bool {
    match o {
        Outcome::PasswordChecked(_) => m.pending is Verdict,
        Outcome::DataChannel(_) => m.pending is DataChannel,
        Outcome::Directory(_) => m.pending is Directory,
        Outcome::Transfer(_) => m.pending is Retrieve || m.pending is Store || m.pending is List,
    }
}

pub open spec fn digit_text(n: nat) -> Seq<char> {
    if n == 4 {
        "4"@
    } else if n == 3 {
        "3"@
    } else if n == 2 {
        "2"@
    } else if n == 1 {
        "1"@
    } else {
        "0"@
    }
}

pub open spec fn challenge_reply(user: Seq<char>) -> Seq<char> {
    "331 Password required for "@ + user + ".\r\n"@
}

pub open spec fn wrong_password_reply(remaining: nat) -> Seq<char> {
    "530 Login incorrect "@ + digit_text(remaining) + " attempts remaining.\r\n"@
}

pub open spec fn logged_in_reply() -> Seq<char> {
    "230 User logged in\r\n"@
}

pub open spec fn login_failed_reply() -> Seq<char> {
    "530 Log in unsuccessful\r\n"@
}

pub open spec fn no_data_reply() -> Seq<char> {
    "425 No data connection established.\r\n"@
}

pub open spec fn no_connection_reply() -> Seq<char> {
    "425 Can't open data connection.\r\n"@
}

pub open spec fn aborted_reply() -> Seq<char> {
    "451 Requested action aborted.\r\n"@
}

pub open spec fn cwd_failed_reply() -> Seq<char> {
    "550 Failed to change directory.\r\n"@
}

pub open spec fn cwd_done_reply() -> Seq<char> {
    "250 Directory successfully changed.\r\n"@
}

pub open spec fn pwd_reply(cwd: Seq<char>) -> Seq<char> {
    "257 \""@ + cwd + "\" is the current directory\r\n"@
}

/// What `RETR` (`retrieve`) or `STOR` does with argument `arg`: it needs a data channel, a
/// path, the `File` structure, access to the path and the `Stream` mode, in that order.
pub open spec fn transfer_step(m: SessionModel, arg: Option<Seq<char>>, retrieve: bool) -> (
    SessionModel,
    ActionModel,
) {
    if !m.data_open {
        (m, ActionModel::Reply(no_data_reply()))
    } else if arg is None {
        (m, ActionModel::Reply("501 No file name given.\r\n"@))
    } else if m.structure != TransferStructure::File {
        (
            m,
            ActionModel::Reply(
                "504 Command not implemented for that parameter. (Can only handle File STRU)\r\n"@,
            ),
        )
    } else if !may_access(arg->0, m.auth) {
        (m, ActionModel::Reply("550 Permission denied.\r\n"@))
    } else if m.mode != TransferMode::Stream {
        (m, ActionModel::Reply(aborted_reply()))
    } else if retrieve {
        (
            SessionModel { pending: PendingModel::Retrieve, ..m },
            ActionModel::Retrieve { path: arg->0, transfer_type: m.transfer_type },
        )
    } else {
        (SessionModel { pending: PendingModel::Store, ..m }, ActionModel::Store { path: arg->0 })
    }
}

/// What a command line does to a session that waits for one.
pub open spec fn command_step(m: SessionModel, line: Seq<char>) -> (SessionModel, ActionModel) {
    let verb = verb_of(line);
    let arg = arg_of(line);
    if verb == "USER"@ {
        if arg is None || arg->0 == "anonymous"@ {
            (
                SessionModel { auth: ConnectionState::Annonymous, ..m },
                ActionModel::Reply(logged_in_reply()),
            )
        } else {
            (
                SessionModel {
                    pending: PendingModel::Password { user: arg->0, attempts: 0 },
                    ..m
                },
                ActionModel::Reply(challenge_reply(arg->0)),
            )
        }
    } else if verb == "QUIT"@ {
        (
            SessionModel { auth: ConnectionState::Disconnected, ..m },
            ActionModel::Close("221 Goodbye\r\n"@),
        )
    } else if verb == "PORT"@ {
        let addr = match arg {
            Some(a) => port_address(a),
            None => None,
        };
        match addr {
            Some(a) => (
                SessionModel { data_open: false, pending: PendingModel::DataChannel, ..m },
                ActionModel::Connect(a),
            ),
            None => (
                SessionModel { data_open: false, ..m },
                ActionModel::Reply(no_connection_reply()),
            ),
        }
    } else if verb == "TYPE"@ {
        let t = match arg {
            Some(c) => type_of_code(c),
            None => TransferType::Ascii,
        };
        (
            SessionModel { transfer_type: t, ..m },
            ActionModel::Reply("200 Type set to "@ + transfer_type_name(t) + "\r\n"@),
        )
    } else if verb == "MODE"@ {
        let t = match arg {
            Some(c) => mode_of_code(c),
            None => TransferMode::Stream,
        };
        (
            SessionModel { mode: t, ..m },
            ActionModel::Reply("200 Transfer mode set to "@ + mode_name(t) + "\r\n"@),
        )
    } else if verb == "STRU"@ {
        let t = match arg {
            Some(c) => structure_of_code(c),
            None => TransferStructure::File,
        };
        (
            SessionModel { structure: t, ..m },
            ActionModel::Reply("200 Transfer structure set to "@ + structure_name(t) + "\r\n"@),
        )
    } else if verb == "RETR"@ {
        transfer_step(m, arg, true)
    } else if verb == "STOR"@ {
        transfer_step(m, arg, false)
    } else if verb == "CWD"@ {
        let p = match arg {
            Some(p) => p,
            None => "/"@,
        };
        let candidate = resolved_directory(m.cwd, p);
        (
            SessionModel { pending: PendingModel::Directory { candidate }, ..m },
            ActionModel::CheckDirectory(candidate),
        )
    } else if verb == "CDUP"@ {
        match parent_of(m.cwd) {
            Some(p) => (SessionModel { cwd: p, ..m }, ActionModel::Reply(cwd_done_reply())),
            None => (m, ActionModel::Reply(cwd_failed_reply())),
        }
    } else if verb == "PWD"@ {
        (m, ActionModel::Reply(pwd_reply(m.cwd)))
    } else if verb == "LIST"@ {
        if !m.data_open {
            (m, ActionModel::Reply(no_data_reply()))
        } else {
            let path = match arg {
                Some(p) => p,
                None => m.cwd,
            };
            (SessionModel { pending: PendingModel::List, ..m }, ActionModel::List { path })
        }
    } else if verb == "NOOP"@ {
        (m, ActionModel::Reply("200 NOOP command successful.\r\n"@))
    } else {
        (m, ActionModel::Reply("502 This service not implemented.\r\n"@))
    }
}

/// What a line does while a password is asked for: `PASS` with a password has it checked;
/// anything else ends the login, not logged in.
pub open spec fn password_step(m: SessionModel, line: Seq<char>) -> (SessionModel, ActionModel) {
    let user = m.pending->Password_user;
    let attempts = m.pending->Password_attempts;
    if verb_of(line) == "PASS"@ && arg_of(line) is Some {
        (
            SessionModel { pending: PendingModel::Verdict { user, attempts }, ..m },
            ActionModel::VerifyPassword { user, password: arg_of(line)->0 },
        )
    } else {
        (
            SessionModel { auth: ConnectionState::NotLoggedIn, pending: PendingModel::Idle, ..m },
            ActionModel::Reply(login_failed_reply()),
        )
    }
}

/// What a line read from the control channel does.
pub open spec fn line_step(m: SessionModel, line: Seq<char>) -> (SessionModel, ActionModel) {
    if m.pending is Password {
        password_step(m, line)
    } else {
        command_step(m, line)
    }
}

/// What the verdict on a password does: a match logs the user in; a mismatch leaves one
/// attempt fewer, and after the last one the login ends, not logged in.
pub open spec fn verdict_step(m: SessionModel, ok: bool) -> (SessionModel, ActionModel) {
    let user = m.pending->Verdict_user;
    let used = m.pending->Verdict_attempts + 1;
    if ok {
        (
            SessionModel { auth: ConnectionState::LoggedIn, pending: PendingModel::Idle, ..m },
            ActionModel::Reply(logged_in_reply()),
        )
    } else if used < MAX_PASSWORD_ATTEMPTS {
        (
            SessionModel { pending: PendingModel::Password { user, attempts: used }, ..m },
            ActionModel::Reply(
                wrong_password_reply((MAX_PASSWORD_ATTEMPTS - used) as nat) + challenge_reply(user),
            ),
        )
    } else {
        (
            SessionModel { auth: ConnectionState::NotLoggedIn, pending: PendingModel::Idle, ..m },
            ActionModel::Reply(wrong_password_reply(0) + login_failed_reply()),
        )
    }
}

/// The reply that ends a transfer, by what was transferred and how it went.
pub open spec fn transfer_reply(p: PendingModel, t: TransferOutcome) -> Seq<char> {
    match (p, t) {
        (PendingModel::Store, TransferOutcome::Completed) => "226 Transfer complete\r\n"@,
        (PendingModel::Store, _) => aborted_reply(),
        (_, TransferOutcome::Completed) => "226 Transfer complete.\r\n"@,
        (PendingModel::List, TransferOutcome::NotFound) => "550 Directory not found.\r\n"@,
        (_, TransferOutcome::NotFound) => "550 File not found.\r\n"@,
        (_, TransferOutcome::Failed) => aborted_reply(),
    }
}

/// What the result of outside work does to the session that waits for it.
pub open spec fn outcome_step(m: SessionModel, o: Outcome) -> (SessionModel, ActionModel) {
    match o {
        Outcome::PasswordChecked(ok) => verdict_step(m, ok),
        Outcome::DataChannel(true) => (
            SessionModel { data_open: true, pending: PendingModel::Idle, ..m },
            ActionModel::Reply("200 PORT command successful\r\n"@),
        ),
        Outcome::DataChannel(false) => (
            SessionModel { data_open: false, pending: PendingModel::Idle, ..m },
            ActionModel::Reply(no_connection_reply()),
        ),
        Outcome::Directory(true) => (
            SessionModel { cwd: m.pending->Directory_candidate, pending: PendingModel::Idle, ..m },
            ActionModel::Reply(cwd_done_reply()),
        ),
        Outcome::Directory(false) => (
            SessionModel { pending: PendingModel::Idle, ..m },
            ActionModel::Reply(cwd_failed_reply()),
        ),
        Outcome::Transfer(t) => (
            SessionModel { pending: PendingModel::Idle, ..m },
            ActionModel::Reply(transfer_reply(m.pending, t)),
        ),
    }
}

fn reply(text: &str) -> (r: Action)
    ensures
        r@ == ActionModel::Reply(text@),
{
    Action::Reply(String::from_str(text))
}

fn digit(n: u8) -> (r: &'static str)
    ensures
        r@ == digit_text(n as nat),
{
    if n == 4 {
        "4"
    } else if n == 3 {
        "3"
    } else if n == 2 {
        "2"
    } else if n == 1 {
        "1"
    } else {
        "0"
    }
}

fn challenge(user: &str) -> (r: String)
    ensures
        r@ == challenge_reply(user@),
{
    let mut r = String::from_str("331 Password required for ");
    r.append(user);
    r.append(".\r\n");
    r
}

fn wrong_password(remaining: u8) -> (r: String)
    ensures
        r@ == wrong_password_reply(remaining as nat),
{
    let mut r = String::from_str("530 Login incorrect ");
    r.append(digit(remaining));
    r.append(" attempts remaining.\r\n");
    r
}

proof fn lemma_resolved_absolute(cwd: Seq<char>, p: Seq<char>)
    requires
        cwd.len() > 0 && cwd[0] == '/',
    ensures
        resolved_directory(cwd, p).len() > 0 && resolved_directory(cwd, p)[0] == '/',
{
}

proof fn lemma_parent_absolute(cwd: Seq<char>)
    requires
        cwd.len() > 0 && cwd[0] == '/',
        parent_of(cwd) is Some,
    ensures
        parent_of(cwd)->0.len() > 0 && parent_of(cwd)->0[0] == '/',
{
    lemma_two_separators(cwd);
}

proof fn lemma_two_separators(s: Seq<char>)
    requires
        s.len() > 0 && s[0] == '/',
        crate::text::count_of(s, '/') >= 2,
    ensures
        1 <= crate::text::last_index_of(s, '/') < s.len(),
    decreases s.len(),
{
    if s.last() != '/' {
        lemma_two_separators(s.drop_last());
    } else {
        if s.len() == 1 {
            assert(crate::text::count_of(s.drop_last(), '/') == 0);
        }
    }
}

/// The banner sent when a control connection opens.
pub fn welcome() -> (r: String)
    ensures
        r@ == "220 Welcome to ftp server :()\r\n"@,
{
    String::from_str("220 Welcome to ftp server :()\r\n")
}

impl Session {
    pub open spec fn wf(&self) -> bool {
        model_wf(self@)
    }

    /// A session for a connection just accepted: not logged in, ASCII, stream mode, file
    /// structure, at `/`, with no data channel.
    pub fn new() -> (r: Session)
        ensures
            r@ == initial_model(),
            model_wf(r@),
    {
        let r = Session {
            auth_state: ConnectionState::NotLoggedIn,
            transfer_type: TransferType::Ascii,
            transfer_mode: TransferMode::Stream,
            transfer_structure: TransferStructure::File,
            current_directory: String::from_str("/"),
            data_channel: false,
            pending: Pending::Idle,
        };
        proof {
            reveal_strlit("/");
        }
        r
    }

    pub fn auth_state(&self) -> (r: ConnectionState)
        ensures
            r == self@.auth,
    {
        self.auth_state
    }

    pub fn transfer_type(&self) -> (r: TransferType)
        ensures
            r == self@.transfer_type,
    {
        self.transfer_type
    }

    pub fn transfer_mode(&self) -> (r: TransferMode)
        ensures
            r == self@.mode,
    {
        self.transfer_mode
    }

    pub fn transfer_structure(&self) -> (r: TransferStructure)
        ensures
            r == self@.structure,
    {
        self.transfer_structure
    }

    pub fn current_directory(&self) -> (r: &str)
        ensures
            r@ == self@.cwd,
    {
        self.current_directory.as_str()
    }

    /// Whether a data channel is open.
    pub fn data_channel_open(&self) -> (r: bool)
        ensures
            r == self@.data_open,
    {
        self.data_channel
    }

    /// Whether the session has quit.
    pub fn is_finished(&self) -> (r: bool)
        ensures
            r == (self@.auth == ConnectionState::Disconnected),
    {
        self.auth_state == ConnectionState::Disconnected
    }

    /// Whether the next thing that the session takes is a line from the control channel.
    pub fn awaiting_line(&self) -> (r: bool)
        ensures
            r == reads_line(self@),
    {
        match self.pending {
            Pending::Idle | Pending::Password { .. } => self.auth_state
                != ConnectionState::Disconnected,
            _ => false,
        }
    }

    /// Whether `o` is the result of the work that the session waits for.
    pub fn awaits(&self, o: Outcome) -> (r: bool)
        ensures
            r == expects(self@, o),
    {
        match o {
            Outcome::PasswordChecked(_) => matches!(self.pending, Pending::Verdict { .. }),
            Outcome::DataChannel(_) => matches!(self.pending, Pending::DataChannel),
            Outcome::Directory(_) => matches!(self.pending, Pending::Directory { .. }),
            Outcome::Transfer(_) => matches!(
                self.pending,
                Pending::Retrieve | Pending::Store | Pending::List
            ),
        }
    }

    /// Handles one line read from the control channel.
    pub fn handle_line(&mut self, line: &str) -> (r: Action)
        requires
            old(self).wf(),
            reads_line(old(self)@),
        ensures
            final(self).wf(),
            (final(self)@, r@) == line_step(old(self)@, line@),
    {
        let is_password = match self.pending {
            Pending::Password { .. } => true,
            _ => false,
        };
        if is_password {
            self.handle_password(line)
        } else {
            self.handle_command(line)
        }
    }

    fn handle_password(&mut self, line: &str) -> (r: Action)
        requires
            old(self).wf(),
            old(self)@.pending is Password,
        ensures
            final(self).wf(),
            (final(self)@, r@) == password_step(old(self)@, line@),
    {
        let (user, attempts) = match &self.pending {
            Pending::Password { user, attempts } => (user.clone(), *attempts),
            _ => {
                proof {
                    assert(false);
                }
                (String::new(), 0)
            },
        };
        let words = split_command(line);
        if same_text(words.verb, "PASS") {
            match words.arg {
                Some(password) => {
                    self.pending = Pending::Verdict { user: user.clone(), attempts };
                    return Action::VerifyPassword { user, password: String::from_str(password) };
                },
                None => {},
            }
        }
        self.auth_state = ConnectionState::NotLoggedIn;
        self.pending = Pending::Idle;
        reply("530 Log in unsuccessful\r\n")
    }

    fn handle_transfer(&mut self, arg: Option<&str>, retrieve: bool) -> (r: Action)
        requires
            old(self).wf(),
            old(self)@.pending is Idle,
        ensures
            final(self).wf(),
            (final(self)@, r@) == transfer_step(
                old(self)@,
                match arg {
                    Some(a) => Some(a@),
                    None => None,
                },
                retrieve,
            ),
    {
        if !self.data_channel {
            return reply("425 No data connection established.\r\n");
        }
        let path = match arg {
            Some(p) => p,
            None => {
                return reply("501 No file name given.\r\n");
            },
        };
        if self.transfer_structure != TransferStructure::File {
            return reply(
                "504 Command not implemented for that parameter. (Can only handle File STRU)\r\n",
            );
        }
        if !auth_can_access_file(path, self.auth_state) {
            return reply("550 Permission denied.\r\n");
        }
        if self.transfer_mode != TransferMode::Stream {
            return reply("451 Requested action aborted.\r\n");
        }
        if retrieve {
            self.pending = Pending::Retrieve;
            Action::Retrieve { path: String::from_str(path), transfer_type: self.transfer_type }
        } else {
            self.pending = Pending::Store;
            Action::Store { path: String::from_str(path) }
        }
    }

    fn handle_command(&mut self, line: &str) -> (r: Action)
        requires
            old(self).wf(),
            old(self)@.pending is Idle,
        ensures
            final(self).wf(),
            (final(self)@, r@) == command_step(old(self)@, line@),
    {
        let words = split_command(line);
        let verb = words.verb;
        let arg = words.arg;
        if same_text(verb, "USER") {
            let anonymous = match arg {
                Some(name) => same_text(name, "anonymous"),
                None => true,
            };
            if anonymous {
                self.auth_state = ConnectionState::Annonymous;
                return reply("230 User logged in\r\n");
            }
            let name = match arg {
                Some(name) => name,
                None => "",
            };
            self.pending = Pending::Password { user: String::from_str(name), attempts: 0 };
            Action::Reply(challenge(name))
        } else if same_text(verb, "QUIT") {
            self.auth_state = ConnectionState::Disconnected;
            Action::Close(String::from_str("221 Goodbye\r\n"))
        } else if same_text(verb, "PORT") {
            let addr = match arg {
                Some(a) => parse_port_argument(a),
                None => None,
            };
            self.data_channel = false;
            match addr {
                Some(a) => {
                    self.pending = Pending::DataChannel;
                    Action::Connect(a)
                },
                None => reply("425 Can't open data connection.\r\n"),
            }
        } else if same_text(verb, "TYPE") {
            let t = match arg {
                Some(c) => TransferType::from(c),
                None => TransferType::Ascii,
            };
            self.transfer_type = t;
            let mut r = String::from_str("200 Type set to ");
            r.append(t.to_string().as_str());
            r.append("\r\n");
            Action::Reply(r)
        } else if same_text(verb, "MODE") {
            let t = match arg {
                Some(c) => TransferMode::from(c),
                None => TransferMode::Stream,
            };
            self.transfer_mode = t;
            let mut r = String::from_str("200 Transfer mode set to ");
            r.append(t.to_string().as_str());
            r.append("\r\n");
            Action::Reply(r)
        } else if same_text(verb, "STRU") {
            let t = match arg {
                Some(c) => TransferStructure::from(c),
                None => TransferStructure::File,
            };
            self.transfer_structure = t;
            let mut r = String::from_str("200 Transfer structure set to ");
            r.append(t.to_string().as_str());
            r.append("\r\n");
            Action::Reply(r)
        } else if same_text(verb, "RETR") {
            self.handle_transfer(arg, true)
        } else if same_text(verb, "STOR") {
            self.handle_transfer(arg, false)
        } else if same_text(verb, "CWD") {
            let p = match arg {
                Some(p) => p,
                None => "/",
            };
            let candidate = resolve_directory(self.current_directory.as_str(), p);
            proof {
                lemma_resolved_absolute(self@.cwd, p@);
            }
            self.pending = Pending::Directory { candidate: candidate.clone() };
            Action::CheckDirectory(candidate)
        } else if same_text(verb, "CDUP") {
            match parent_directory(self.current_directory.as_str()) {
                Some(p) => {
                    proof {
                        lemma_parent_absolute(self@.cwd);
                    }
                    self.current_directory = p;
                    reply("250 Directory successfully changed.\r\n")
                },
                None => reply("550 Failed to change directory.\r\n"),
            }
        } else if same_text(verb, "PWD") {
            let mut r = String::from_str("257 \"");
            r.append(self.current_directory.as_str());
            r.append("\" is the current directory\r\n");
            Action::Reply(r)
        } else if same_text(verb, "LIST") {
            if !self.data_channel {
                return reply("425 No data connection established.\r\n");
            }
            let path = match arg {
                Some(p) => String::from_str(p),
                None => self.current_directory.clone(),
            };
            self.pending = Pending::List;
            Action::List { path }
        } else if same_text(verb, "NOOP") {
            reply("200 NOOP command successful.\r\n")
        } else {
            reply("502 This service not implemented.\r\n")
        }
    }

    /// Takes the result of the work that the last action asked for.
    pub fn resume(&mut self, o: Outcome) -> (r: Action)
        requires
            old(self).wf(),
            expects(old(self)@, o),
        ensures
            final(self).wf(),
            (final(self)@, r@) == outcome_step(old(self)@, o),
    {
        match o {
            Outcome::PasswordChecked(ok) => {
                let (user, attempts) = match &self.pending {
                    Pending::Verdict { user, attempts } => (user.clone(), *attempts),
                    _ => {
                        proof {
                            assert(false);
                        }
                        (String::new(), 0)
                    },
                };
                if ok {
                    self.auth_state = ConnectionState::LoggedIn;
                    self.pending = Pending::Idle;
                    return reply("230 User logged in\r\n");
                }
                let used = attempts + 1;
                if used < MAX_PASSWORD_ATTEMPTS {
                    let mut r = wrong_password(MAX_PASSWORD_ATTEMPTS - used);
                    r.append(challenge(user.as_str()).as_str());
                    self.pending = Pending::Password { user, attempts: used };
                    Action::Reply(r)
                } else {
                    self.auth_state = ConnectionState::NotLoggedIn;
                    self.pending = Pending::Idle;
                    let mut r = wrong_password(0);
                    r.append("530 Log in unsuccessful\r\n");
                    Action::Reply(r)
                }
            },
            Outcome::DataChannel(connected) => {
                self.data_channel = connected;
                self.pending = Pending::Idle;
                if connected {
                    reply("200 PORT command successful\r\n")
                } else {
                    reply("425 Can't open data connection.\r\n")
                }
            },
            Outcome::Directory(exists) => {
                let candidate = match &self.pending {
                    Pending::Directory { candidate } => candidate.clone(),
                    _ => {
                        proof {
                            assert(false);
                        }
                        String::new()
                    },
                };
                self.pending = Pending::Idle;
                if exists {
                    self.current_directory = candidate;
                    reply("250 Directory successfully changed.\r\n")
                } else {
                    reply("550 Failed to change directory.\r\n")
                }
            },
            Outcome::Transfer(t) => {
                let store = matches!(self.pending, Pending::Store);
                let list = matches!(self.pending, Pending::List);
                self.pending = Pending::Idle;
                match t {
                    TransferOutcome::Completed => {
                        if store {
                            reply("226 Transfer complete\r\n")
                        } else {
                            reply("226 Transfer complete.\r\n")
                        }
                    },
                    TransferOutcome::NotFound => {
                        if store {
                            reply("451 Requested action aborted.\r\n")
                        } else if list {
                            reply("550 Directory not found.\r\n")
                        } else {
                            reply("550 File not found.\r\n")
                        }
                    },
                    TransferOutcome::Failed => reply("451 Requested action aborted.\r\n"),
                }
            },
        }
    }
}

proof fn lemma_verbs()
    ensures
        "USER"@ == seq!['U', 'S', 'E', 'R'],
        "QUIT"@ == seq!['Q', 'U', 'I', 'T'],
        "PORT"@ == seq!['P', 'O', 'R', 'T'],
        "TYPE"@ == seq!['T', 'Y', 'P', 'E'],
        "MODE"@ == seq!['M', 'O', 'D', 'E'],
        "STRU"@ == seq!['S', 'T', 'R', 'U'],
        "RETR"@ == seq!['R', 'E', 'T', 'R'],
        "STOR"@ == seq!['S', 'T', 'O', 'R'],
        "CWD"@ == seq!['C', 'W', 'D'],
        "CDUP"@ == seq!['C', 'D', 'U', 'P'],
        "PASS"@ == seq!['P', 'A', 'S', 'S'],
{
    reveal_strlit("USER");
    reveal_strlit("QUIT");
    reveal_strlit("PORT");
    reveal_strlit("TYPE");
    reveal_strlit("MODE");
    reveal_strlit("STRU");
    reveal_strlit("RETR");
    reveal_strlit("STOR");
    reveal_strlit("CWD");
    reveal_strlit("CDUP");
    reveal_strlit("PASS");
    assert("USER"@ =~= seq!['U', 'S', 'E', 'R']);
    assert("QUIT"@ =~= seq!['Q', 'U', 'I', 'T']);
    assert("PORT"@ =~= seq!['P', 'O', 'R', 'T']);
    assert("TYPE"@ =~= seq!['T', 'Y', 'P', 'E']);
    assert("MODE"@ =~= seq!['M', 'O', 'D', 'E']);
    assert("STRU"@ =~= seq!['S', 'T', 'R', 'U']);
    assert("RETR"@ =~= seq!['R', 'E', 'T', 'R']);
    assert("STOR"@ =~= seq!['S', 'T', 'O', 'R']);
    assert("CWD"@ =~= seq!['C', 'W', 'D']);
    assert("CDUP"@ =~= seq!['C', 'D', 'U', 'P']);
    assert("PASS"@ =~= seq!['P', 'A', 'S', 'S']);
}

/// `USER anonymous` logs in anonymously at once: no password is asked for.
pub proof fn lemma_anonymous_login(m: SessionModel, line: Seq<char>)
    requires
        m.pending is Idle,
        verb_of(line) == "USER"@,
        arg_of(line) == Some("anonymous"@),
    ensures
        line_step(m, line).0 == (SessionModel { auth: ConnectionState::Annonymous, ..m }),
        line_step(m, line).1 == ActionModel::Reply(logged_in_reply()),
{
}

/// A user whose credential record matches the password logs in with `USER` then `PASS`: the
/// session is logged in after the verdict and not before, and a `RETR` that follows is
/// carried out whatever the path.
pub proof fn lemma_password_login(
    m: SessionModel,
    user_line: Seq<char>,
    pass_line: Seq<char>,
    record: Seq<char>,
    retr_line: Seq<char>,
)
    requires
        model_wf(m),
        m.pending is Idle,
        m.auth == ConnectionState::NotLoggedIn,
        verb_of(user_line) == "USER"@,
        arg_of(user_line) is Some,
        arg_of(user_line)->0 != "anonymous"@,
        verb_of(pass_line) == "PASS"@,
        arg_of(pass_line) is Some,
        password_matches(arg_of(pass_line)->0, Some(record)),
        verb_of(retr_line) == "RETR"@,
        arg_of(retr_line) is Some,
        m.data_open,
        m.structure == TransferStructure::File,
        m.mode == TransferMode::Stream,
    ensures
        ({
            let user = arg_of(user_line)->0;
            let password = arg_of(pass_line)->0;
            let (m1, a1) = line_step(m, user_line);
            let (m2, a2) = line_step(m1, pass_line);
            let (m3, a3) = outcome_step(m2, Outcome::PasswordChecked(password_matches(password, Some(record))));
            let (m4, a4) = line_step(m3, retr_line);
            &&& a1 == ActionModel::Reply(challenge_reply(user))
            &&& m1.auth == ConnectionState::NotLoggedIn
            &&& reads_line(m1)
            &&& a2 == (ActionModel::VerifyPassword { user, password })
            &&& m2.auth == ConnectionState::NotLoggedIn
            &&& expects(m2, Outcome::PasswordChecked(true))
            &&& a3 == ActionModel::Reply(logged_in_reply())
            &&& m3.auth == ConnectionState::LoggedIn
            &&& reads_line(m3)
            &&& a4 == (ActionModel::Retrieve { path: arg_of(retr_line)->0, transfer_type: m.transfer_type })
        }),
{
    lemma_verbs();
}

/// With a data channel open, the `File` structure and the `Stream` mode, a session logged in
/// (anonymously or not) may retrieve and store any path that names "public" or "shared".
pub proof fn lemma_shared_paths_open(m: SessionModel, line: Seq<char>)
    requires
        m.pending is Idle,
        verb_of(line) == "RETR"@ || verb_of(line) == "STOR"@,
        arg_of(line) is Some,
        crate::text::contains(arg_of(line)->0, "public"@) || crate::text::contains(
            arg_of(line)->0,
            "shared"@,
        ),
        m.auth == ConnectionState::Annonymous || m.auth == ConnectionState::LoggedIn,
        m.data_open,
        m.structure == TransferStructure::File,
        m.mode == TransferMode::Stream,
    ensures
        verb_of(line) == "RETR"@ ==> line_step(m, line).1 == (ActionModel::Retrieve {
            path: arg_of(line)->0,
            transfer_type: m.transfer_type,
        }),
        verb_of(line) == "STOR"@ ==> line_step(m, line).1 == (ActionModel::Store {
            path: arg_of(line)->0,
        }),
{
    lemma_verbs();
    assert(seq!['R', 'E', 'T', 'R'][0] != seq!['U', 'S', 'E', 'R'][0]);
}

/// Applies `k` rounds of a password line followed by a verdict that it does not match.
pub open spec fn wrong_rounds(m: SessionModel, pass_line: Seq<char>, k: nat) -> (
    SessionModel,
    ActionModel,
)
    decreases k,
{
    if k == 0 {
        (m, ActionModel::Reply(Seq::empty()))
    } else {
        let (m1, _) = wrong_rounds(m, pass_line, (k - 1) as nat);
        outcome_step(line_step(m1, pass_line).0, Outcome::PasswordChecked(false))
    }
}

proof fn lemma_wrong_rounds_left(m: SessionModel, pass_line: Seq<char>, user: Seq<char>, k: nat)
    requires
        m.pending == (PendingModel::Password { user, attempts: 0 }),
        verb_of(pass_line) == "PASS"@,
        arg_of(pass_line) is Some,
        k < MAX_PASSWORD_ATTEMPTS,
    ensures
        wrong_rounds(m, pass_line, k).0 == (SessionModel {
            pending: PendingModel::Password { user, attempts: k },
            ..m
        }),
    decreases k,
{
    if k > 0 {
        lemma_wrong_rounds_left(m, pass_line, user, (k - 1) as nat);
    }
}

/// After five wrong passwords in a row the last reply reports no attempt left, and the
/// session is not logged in and reads commands again.
pub proof fn lemma_five_wrong_passwords(m: SessionModel, pass_line: Seq<char>, user: Seq<char>)
    requires
        m.pending == (PendingModel::Password { user, attempts: 0 }),
        verb_of(pass_line) == "PASS"@,
        arg_of(pass_line) is Some,
    ensures
        wrong_rounds(m, pass_line, 5).1 == ActionModel::Reply(
            wrong_password_reply(0) + login_failed_reply(),
        ),
        wrong_rounds(m, pass_line, 5).0.auth == ConnectionState::NotLoggedIn,
        wrong_rounds(m, pass_line, 5).0.pending is Idle,
{
    lemma_wrong_rounds_left(m, pass_line, user, 4);
}

/// `CDUP` in a directory with fewer than two separators (such as `/` or `/a`) leaves it
/// unchanged and fails; elsewhere it drops the last separator and what follows it.
pub proof fn lemma_cdup(m: SessionModel, line: Seq<char>)
    requires
        m.pending is Idle,
        verb_of(line) == "CDUP"@,
    ensures
        crate::text::count_of(m.cwd, '/') < 2 ==> line_step(m, line) == (
            m,
            ActionModel::Reply(cwd_failed_reply()),
        ),
        crate::text::count_of(m.cwd, '/') >= 2 ==> line_step(m, line) == (
            SessionModel { cwd: m.cwd.take(crate::text::last_index_of(m.cwd, '/')), ..m },
            ActionModel::Reply(cwd_done_reply()),
        ),
{
    lemma_verbs();
}

/// When `PORT` cannot open its data channel (its argument is malformed, or the endpoint does
/// not answer), the reply is 425 and no channel is open, so a `RETR` that follows is answered
/// 425 too.
pub proof fn lemma_failed_port(m: SessionModel, port_line: Seq<char>, retr_line: Seq<char>)
    requires
        m.pending is Idle,
        verb_of(port_line) == "PORT"@,
        verb_of(retr_line) == "RETR"@,
    ensures
        ({
            let (m1, a1) = line_step(m, port_line);
            match a1 {
                ActionModel::Connect(_) => {
                    let (m2, a2) = outcome_step(m1, Outcome::DataChannel(false));
                    &&& a2 == ActionModel::Reply(no_connection_reply())
                    &&& !m2.data_open
                    &&& line_step(m2, retr_line).1 == ActionModel::Reply(no_data_reply())
                },
                _ => {
                    &&& a1 == ActionModel::Reply(no_connection_reply())
                    &&& !m1.data_open
                    &&& line_step(m1, retr_line).1 == ActionModel::Reply(no_data_reply())
                },
            }
        }),
{
    lemma_verbs();
}

/// A session quits only on `QUIT`: no other line and no result of outside work ends it.
pub proof fn lemma_quit_only(m: SessionModel, line: Seq<char>, o: Outcome)
    ensures
        m.auth != ConnectionState::Disconnected && line_step(m, line).0.auth
            == ConnectionState::Disconnected ==> !(m.pending is Password) && verb_of(line)
            == "QUIT"@,
        m.auth != ConnectionState::Disconnected ==> outcome_step(m, o).0.auth
            != ConnectionState::Disconnected,
{
}

} // verus!
