use webserver::access::{check_password, hash_password};
use webserver::port::DataAddress;
use webserver::session::{welcome, Action, Outcome, Session, TransferOutcome};
use webserver::status::{ConnectionState, TransferMode, TransferStructure, TransferType};

fn reply(text: &str) -> Action {
    Action::Reply(text.to_string())
}

fn session_with_data_channel() -> Session {
    let mut s = Session::new();
    let a = s.handle_line("PORT 127,0,0,1,4,1\r\n");
    assert_eq!(a, Action::Connect(DataAddress { h1: 127, h2: 0, h3: 0, h4: 1, port: 1025 }));
    assert_eq!(s.resume(Outcome::DataChannel(true)), reply("200 PORT command successful\r\n"));
    assert!(s.data_channel_open());
    s
}

#[test]
fn new_session_defaults() {
    let s = Session::new();
    assert_eq!(s.auth_state(), ConnectionState::NotLoggedIn);
    assert_eq!(s.transfer_type(), TransferType::Ascii);
    assert_eq!(s.transfer_mode(), TransferMode::Stream);
    assert_eq!(s.transfer_structure(), TransferStructure::File);
    assert_eq!(s.current_directory(), "/");
    assert!(!s.data_channel_open());
    assert!(s.awaiting_line());
    assert!(!s.is_finished());
}

#[test]
fn end_to_end_anonymous_pwd() {
    assert_eq!(welcome(), "220 Welcome to ftp server :()\r\n");
    let mut s = Session::new();
    assert_eq!(s.handle_line("USER anonymous\r\n"), reply("230 User logged in\r\n"));
    assert_eq!(s.handle_line("PWD\r\n"), reply("257 \"/\" is the current directory\r\n"));
}

#[test]
fn anonymous_login_asks_no_password() {
    let mut s = Session::new();
    let a = s.handle_line("USER anonymous");
    assert_eq!(a, reply("230 User logged in\r\n"));
    assert_eq!(s.auth_state(), ConnectionState::Annonymous);
    assert!(s.awaiting_line());
}

#[test]
fn user_without_name_is_anonymous() {
    let mut s = Session::new();
    assert_eq!(s.handle_line("USER"), reply("230 User logged in\r\n"));
    assert_eq!(s.auth_state(), ConnectionState::Annonymous);
}

#[test]
fn password_login_then_private_retrieve() {
    let record = format!("{}\n", hash_password("secret"));
    let mut s = session_with_data_channel();
    assert_eq!(s.handle_line("USER bob\r\n"), reply("331 Password required for bob.\r\n"));
    assert_eq!(s.auth_state(), ConnectionState::NotLoggedIn);
    let a = s.handle_line("PASS secret\r\n");
    assert_eq!(
        a,
        Action::VerifyPassword { user: "bob".to_string(), password: "secret".to_string() }
    );
    assert!(s.awaits(Outcome::PasswordChecked(true)));
    let ok = check_password("secret", Some(record.as_str()));
    assert!(ok);
    assert_eq!(s.resume(Outcome::PasswordChecked(ok)), reply("230 User logged in\r\n"));
    assert_eq!(s.auth_state(), ConnectionState::LoggedIn);
    assert_eq!(
        s.handle_line("RETR /home/bob/notes.txt"),
        Action::Retrieve { path: "/home/bob/notes.txt".to_string(), transfer_type: TransferType::Ascii }
    );
    assert_eq!(s.resume(Outcome::Transfer(TransferOutcome::Completed)), reply("226 Transfer complete.\r\n"));
}

#[test]
fn five_wrong_passwords() {
    let record = hash_password("right");
    let mut s = Session::new();
    assert_eq!(s.handle_line("USER bob"), reply("331 Password required for bob.\r\n"));
    for attempt in 1..=5u8 {
        let a = s.handle_line("PASS wrong");
        assert_eq!(
            a,
            Action::VerifyPassword { user: "bob".to_string(), password: "wrong".to_string() }
        );
        let ok = check_password("wrong", Some(record.as_str()));
        assert!(!ok);
        let r = s.resume(Outcome::PasswordChecked(ok));
        if attempt < 5 {
            let expected = format!(
                "530 Login incorrect {} attempts remaining.\r\n331 Password required for bob.\r\n",
                5 - attempt
            );
            assert_eq!(r, Action::Reply(expected));
        } else {
            assert_eq!(
                r,
                reply("530 Login incorrect 0 attempts remaining.\r\n530 Log in unsuccessful\r\n")
            );
        }
    }
    assert_eq!(s.auth_state(), ConnectionState::NotLoggedIn);
    assert!(s.awaiting_line());
    assert_eq!(s.handle_line("NOOP"), reply("200 NOOP command successful.\r\n"));
}

#[test]
fn other_verb_ends_login() {
    let mut s = Session::new();
    s.handle_line("USER bob");
    assert_eq!(s.handle_line("NOOP"), reply("530 Log in unsuccessful\r\n"));
    assert_eq!(s.auth_state(), ConnectionState::NotLoggedIn);
    s.handle_line("USER bob");
    assert_eq!(s.handle_line("PASS"), reply("530 Log in unsuccessful\r\n"));
}

#[test]
fn missing_credential_record_fails() {
    assert!(!check_password("secret", None));
}

#[test]
fn public_and_shared_paths_for_anonymous() {
    let mut s = session_with_data_channel();
    s.handle_line("USER anonymous");
    assert_eq!(
        s.handle_line("RETR /srv/public/a.txt"),
        Action::Retrieve { path: "/srv/public/a.txt".to_string(), transfer_type: TransferType::Ascii }
    );
    s.resume(Outcome::Transfer(TransferOutcome::Completed));
    assert_eq!(
        s.handle_line("STOR /srv/shared/b.bin"),
        Action::Store { path: "/srv/shared/b.bin".to_string() }
    );
    assert_eq!(s.resume(Outcome::Transfer(TransferOutcome::Completed)), reply("226 Transfer complete\r\n"));
    assert_eq!(s.handle_line("RETR /srv/private/c.txt"), reply("550 Permission denied.\r\n"));
}

#[test]
fn not_logged_in_is_denied_even_public() {
    let mut s = session_with_data_channel();
    assert_eq!(s.handle_line("RETR /srv/public/a.txt"), reply("550 Permission denied.\r\n"));
}

#[test]
fn transfer_checks_in_order() {
    let mut s = Session::new();
    assert_eq!(s.handle_line("RETR x"), reply("425 No data connection established.\r\n"));
    let mut s = session_with_data_channel();
    s.handle_line("USER anonymous");
    assert_eq!(s.handle_line("RETR"), reply("501 No file name given.\r\n"));
    assert_eq!(s.handle_line("STRU R"), reply("200 Transfer structure set to Record\r\n"));
    assert_eq!(
        s.handle_line("RETR public"),
        reply("504 Command not implemented for that parameter. (Can only handle File STRU)\r\n")
    );
    s.handle_line("STRU F");
    assert_eq!(s.handle_line("MODE B"), reply("200 Transfer mode set to Block\r\n"));
    assert_eq!(s.handle_line("STOR public"), reply("451 Requested action aborted.\r\n"));
}

#[test]
fn transfer_outcomes() {
    let mut s = session_with_data_channel();
    s.handle_line("USER anonymous");
    s.handle_line("RETR public/missing");
    assert_eq!(s.resume(Outcome::Transfer(TransferOutcome::NotFound)), reply("550 File not found.\r\n"));
    s.handle_line("RETR public/broken");
    assert_eq!(s.resume(Outcome::Transfer(TransferOutcome::Failed)), reply("451 Requested action aborted.\r\n"));
    s.handle_line("STOR public/x");
    assert_eq!(s.resume(Outcome::Transfer(TransferOutcome::Failed)), reply("451 Requested action aborted.\r\n"));
}

#[test]
fn type_mode_structure_replies() {
    let mut s = Session::new();
    assert_eq!(s.handle_line("TYPE I"), reply("200 Type set to Binary\r\n"));
    assert_eq!(s.transfer_type(), TransferType::Binary);
    assert_eq!(s.handle_line("TYPE E"), reply("200 Type set to EBCDIC\r\n"));
    assert_eq!(s.handle_line("TYPE Z"), reply("200 Type set to ASCII\r\n"));
    assert_eq!(s.handle_line("TYPE"), reply("200 Type set to ASCII\r\n"));
    assert_eq!(s.handle_line("MODE C"), reply("200 Transfer mode set to Compressed\r\n"));
    assert_eq!(s.handle_line("MODE X"), reply("200 Transfer mode set to Stream\r\n"));
    assert_eq!(s.handle_line("STRU P"), reply("200 Transfer structure set to Page\r\n"));
    assert_eq!(s.handle_line("STRU Q"), reply("200 Transfer structure set to File\r\n"));
}

#[test]
fn cdup_from_nested_directory() {
    let mut s = Session::new();
    assert_eq!(s.handle_line("CWD /a/b"), Action::CheckDirectory("/a/b".to_string()));
    assert_eq!(s.resume(Outcome::Directory(true)), reply("250 Directory successfully changed.\r\n"));
    assert_eq!(s.current_directory(), "/a/b");
    assert_eq!(s.handle_line("CDUP"), reply("250 Directory successfully changed.\r\n"));
    assert_eq!(s.current_directory(), "/a");
    assert_eq!(s.handle_line("CDUP"), reply("550 Failed to change directory.\r\n"));
    assert_eq!(s.current_directory(), "/a");
}

#[test]
fn cdup_at_root_fails() {
    let mut s = Session::new();
    assert_eq!(s.handle_line("CDUP"), reply("550 Failed to change directory.\r\n"));
    assert_eq!(s.current_directory(), "/");
}

#[test]
fn cwd_forms_and_rollback() {
    let mut s = Session::new();
    s.handle_line("CWD /srv");
    s.resume(Outcome::Directory(true));
    assert_eq!(s.handle_line("CWD ./files"), Action::CheckDirectory("/srv/files".to_string()));
    assert_eq!(s.resume(Outcome::Directory(false)), reply("550 Failed to change directory.\r\n"));
    assert_eq!(s.current_directory(), "/srv");
    assert_eq!(s.handle_line("CWD docs"), Action::CheckDirectory("/srv/docs".to_string()));
    s.resume(Outcome::Directory(true));
    assert_eq!(s.current_directory(), "/srv/docs");
    assert_eq!(s.handle_line("CWD"), Action::CheckDirectory("/".to_string()));
}

#[test]
fn unreachable_port_then_retrieve() {
    let mut s = Session::new();
    s.handle_line("USER anonymous");
    assert!(matches!(s.handle_line("PORT 10,255,255,1,0,21"), Action::Connect(_)));
    assert_eq!(s.resume(Outcome::DataChannel(false)), reply("425 Can't open data connection.\r\n"));
    assert!(!s.data_channel_open());
    assert_eq!(s.handle_line("RETR public/a"), reply("425 No data connection established.\r\n"));
}

#[test]
fn malformed_port_clears_channel() {
    let mut s = session_with_data_channel();
    assert_eq!(s.handle_line("PORT 1,2,3"), reply("425 Can't open data connection.\r\n"));
    assert!(!s.data_channel_open());
    assert_eq!(s.handle_line("PORT"), reply("425 Can't open data connection.\r\n"));
}

#[test]
fn list_needs_data_channel() {
    let mut s = Session::new();
    assert_eq!(s.handle_line("LIST"), reply("425 No data connection established.\r\n"));
    let mut s = session_with_data_channel();
    assert_eq!(s.handle_line("LIST"), Action::List { path: "/".to_string() });
    assert_eq!(s.resume(Outcome::Transfer(TransferOutcome::NotFound)), reply("550 Directory not found.\r\n"));
    assert_eq!(s.handle_line("LIST /tmp"), Action::List { path: "/tmp".to_string() });
    assert_eq!(s.resume(Outcome::Transfer(TransferOutcome::Completed)), reply("226 Transfer complete.\r\n"));
}

#[test]
fn quit_and_unknown() {
    let mut s = Session::new();
    assert_eq!(s.handle_line("FEAT"), reply("502 This service not implemented.\r\n"));
    assert_eq!(s.handle_line("user anonymous"), reply("502 This service not implemented.\r\n"));
    assert_eq!(s.handle_line("   "), reply("502 This service not implemented.\r\n"));
    assert_eq!(s.handle_line("QUIT\r\n"), Action::Close("221 Goodbye\r\n".to_string()));
    assert_eq!(s.auth_state(), ConnectionState::Disconnected);
    assert!(s.is_finished());
    assert!(!s.awaiting_line());
}

#[test]
fn awaits_matches_pending_work() {
    let mut s = Session::new();
    assert!(!s.awaits(Outcome::Directory(true)));
    s.handle_line("CWD /x");
    assert!(s.awaits(Outcome::Directory(true)));
    assert!(!s.awaits(Outcome::DataChannel(true)));
    assert!(!s.awaiting_line());
}
