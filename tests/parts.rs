use webserver::access::{auth_can_access_file, digest_matches, hash_password, same_trimmed};
use webserver::config::{Config, ConfigError, FileOpenStatus, ServerMode};
use webserver::dirs::{parent_directory, resolve_directory};
use webserver::http::{
    content_type_for, content_type_for_lowercase, not_found_body, request_file_path, status_code,
};
use webserver::port::{parse_port_argument, DataAddress};
use webserver::server::{ServerAction, ServerEvent, ServerLoop, ServerPhase};
use webserver::shutdown::{Drain, ShutdownHelper};
use webserver::status::{ConnectionState, TransferMode, TransferStructure, TransferType};
use webserver::text::{contains_text, same_text, split_command, Words};
use webserver::transfer::{encode_chunk, format_listing};

#[test]
fn split_command_words() {
    assert_eq!(
        split_command("  RETR file.txt extra \r\n"),
        Words { verb: "RETR", arg: Some("file.txt") }
    );
    assert_eq!(split_command("PWD\r\n"), Words { verb: "PWD", arg: None });
    assert_eq!(split_command("USER  bob"), Words { verb: "USER", arg: Some("") });
    assert_eq!(split_command(""), Words { verb: "", arg: None });
}

#[test]
fn text_helpers() {
    assert!(same_text("abc", "abc"));
    assert!(!same_text("abc", "abd"));
    assert!(!same_text("abc", "ab"));
    assert!(contains_text("/srv/public/x", "public"));
    assert!(!contains_text("/srv/pub", "public"));
    assert!(contains_text("anything", ""));
    assert!(same_trimmed(" ab\n", "ab"));
    assert!(!same_trimmed("ab", "a b"));
}

#[test]
fn access_gate() {
    assert!(!auth_can_access_file("/public/a", ConnectionState::NotLoggedIn));
    assert!(!auth_can_access_file("/public/a", ConnectionState::Disconnected));
    assert!(auth_can_access_file("/public/a", ConnectionState::Annonymous));
    assert!(auth_can_access_file("/x/shared", ConnectionState::Annonymous));
    assert!(!auth_can_access_file("/private/a", ConnectionState::Annonymous));
    assert!(auth_can_access_file("/private/a", ConnectionState::LoggedIn));
}

#[test]
fn password_digest() {
    assert_eq!(
        hash_password("hello"),
        "2cf24dba5fb0a30e26e83b2ac5b9e29e1b161e5c1fa7425e73043362938b9824"
    );
    assert!(digest_matches(
        "2cf24dba5fb0a30e26e83b2ac5b9e29e1b161e5c1fa7425e73043362938b9824",
        Some("2cf24dba5fb0a30e26e83b2ac5b9e29e1b161e5c1fa7425e73043362938b9824\n")
    ));
    assert!(!digest_matches("ab", Some("cd")));
    assert!(!digest_matches("ab", None));
}

#[test]
fn transfer_codes() {
    assert_eq!(TransferMode::from("A"), TransferMode::Active);
    assert_eq!(TransferMode::from("P"), TransferMode::Passive);
    assert_eq!(TransferMode::from("S"), TransferMode::Stream);
    assert_eq!(TransferMode::from("B"), TransferMode::Block);
    assert_eq!(TransferMode::from("C"), TransferMode::Compressed);
    assert_eq!(TransferMode::from("zz"), TransferMode::Stream);
    assert_eq!(TransferType::from("A"), TransferType::Ascii);
    assert_eq!(TransferType::from("I"), TransferType::Binary);
    assert_eq!(TransferType::from("E"), TransferType::EBCDIC);
    assert_eq!(TransferType::from("i"), TransferType::Ascii);
    assert_eq!(TransferStructure::from("F"), TransferStructure::File);
    assert_eq!(TransferStructure::from("R"), TransferStructure::Record);
    assert_eq!(TransferStructure::from("P"), TransferStructure::Page);
    assert_eq!(TransferStructure::from(""), TransferStructure::File);
    assert_eq!(TransferMode::Compressed.to_string(), "Compressed");
    assert_eq!(TransferType::Ascii.to_string(), "ASCII");
    assert_eq!(TransferStructure::Record.to_string(), "Record");
}

#[test]
fn port_arguments() {
    assert_eq!(
        parse_port_argument("192,168,0,10,31,144"),
        Some(DataAddress { h1: 192, h2: 168, h3: 0, h4: 10, port: 31 * 256 + 144 })
    );
    assert_eq!(
        parse_port_argument("255,255,255,255,255,255"),
        Some(DataAddress { h1: 255, h2: 255, h3: 255, h4: 255, port: 65535 })
    );
    assert_eq!(
        parse_port_argument("001,2,3,4,0,0"),
        Some(DataAddress { h1: 1, h2: 2, h3: 3, h4: 4, port: 0 })
    );
    assert_eq!(parse_port_argument("1,2,3,4,5"), None);
    assert_eq!(parse_port_argument("1,2,3,4,5,6,7"), None);
    assert_eq!(parse_port_argument("1,2,3,256,5,6"), None);
    assert_eq!(parse_port_argument("1,2,,4,5,6"), None);
    assert_eq!(parse_port_argument("1,2,x,4,5,6"), None);
    assert_eq!(parse_port_argument(""), None);
}

#[test]
fn directories() {
    assert_eq!(resolve_directory("/a", "./b"), "/a/b");
    assert_eq!(resolve_directory("/a", "/c/d"), "/c/d");
    assert_eq!(resolve_directory("/a", "e"), "/a/e");
    assert_eq!(resolve_directory("/", "e"), "//e");
    assert_eq!(parent_directory("/a/b"), Some("/a".to_string()));
    assert_eq!(parent_directory("/a/b/"), Some("/a/b".to_string()));
    assert_eq!(parent_directory("/a"), None);
    assert_eq!(parent_directory("/"), None);
}

#[test]
fn ascii_chunks_widen_line_feeds() {
    let input = b"one\ntwo\nthree\n";
    let out = encode_chunk(TransferType::Ascii, input).unwrap();
    assert_eq!(out, b"one\r\ntwo\r\nthree\r\n".to_vec());
    assert_eq!(out.len(), input.len() + 3);
    let whole = encode_chunk(TransferType::Ascii, b"ab\ncd\n").unwrap();
    let mut parts = encode_chunk(TransferType::Ascii, b"ab\n").unwrap();
    parts.extend(encode_chunk(TransferType::Ascii, b"cd\n").unwrap());
    assert_eq!(whole, parts);
    assert_eq!(encode_chunk(TransferType::Ascii, b"").unwrap(), Vec::<u8>::new());
}

#[test]
fn binary_and_ebcdic_chunks() {
    let input: Vec<u8> = vec![0, 10, 13, 255, 10];
    assert_eq!(encode_chunk(TransferType::Binary, &input).unwrap(), input);
    assert_eq!(encode_chunk(TransferType::EBCDIC, &input), None);
}

#[test]
fn listing_lines() {
    let names = vec!["a.txt".to_string(), "dir".to_string()];
    assert_eq!(format_listing(&names), "a.txt\r\ndir\r\n");
    assert_eq!(format_listing(&Vec::new()), "");
}

#[test]
fn registry_drains() {
    let mut r = ShutdownHelper::new();
    assert_eq!(r.shutdown(), Drain::Finished);
    let mut handles = Vec::new();
    for _ in 0..4 {
        handles.push(r.register().unwrap());
    }
    assert_eq!(r.active(), 4);
    assert_eq!(r.shutdown(), Drain::Wait);
    let last = handles.remove(1);
    for h in handles {
        r.complete(h);
        assert_eq!(r.shutdown(), Drain::Wait);
    }
    assert_eq!(r.active(), 1);
    r.complete(last);
    assert_eq!(r.active(), 0);
    assert_eq!(r.shutdown(), Drain::Finished);
}

#[test]
fn registry_interleaved() {
    let mut r = ShutdownHelper::new();
    let a = r.register().unwrap();
    let b = r.register().unwrap();
    r.complete(a);
    let c = r.register().unwrap();
    r.complete(c);
    assert_eq!(r.shutdown(), Drain::Wait);
    r.complete(b);
    assert_eq!(r.shutdown(), Drain::Finished);
}

#[test]
fn server_loop_phases() {
    let mut l = ServerLoop::new(10);
    assert_eq!(l.on_event(ServerEvent::Accepted), ServerAction::Dispatch);
    assert_eq!(l.on_event(ServerEvent::Drained), ServerAction::Ignore);
    assert_eq!(l.on_event(ServerEvent::ShutdownSignal), ServerAction::StartDrain { timeout_secs: 10 });
    assert_eq!(l.phase, ServerPhase::Draining);
    assert_eq!(l.on_event(ServerEvent::Accepted), ServerAction::Ignore);
    assert_eq!(l.on_event(ServerEvent::TimedOut), ServerAction::GiveUp);
    assert_eq!(l.phase, ServerPhase::Stopped);
    let mut m = ServerLoop::new(3);
    m.on_event(ServerEvent::ShutdownSignal);
    assert_eq!(m.on_event(ServerEvent::Drained), ServerAction::Finish);
}

#[test]
fn config_from_yaml() {
    assert_eq!(
        Config::new("http_port: 8080\nftp_control_port: 2121\n"),
        Ok(Config { http_port: 8080, ftp_control_port: 2121 })
    );
    assert_eq!(Config::new("ftp_control_port: 21\n"), Err(ConfigError::MissingHttpPort));
    assert_eq!(Config::new("http_port: 80\n"), Err(ConfigError::MissingFtpControlPort));
    assert_eq!(Config::new("http_port: [\n"), Err(ConfigError::MissingHttpPort));
    assert_eq!(
        Config::from_values(Some(65537), Some(21)),
        Ok(Config { http_port: 1, ftp_control_port: 21 })
    );
    assert!(ServerMode::HTTP != ServerMode::FTP);
}

#[test]
fn http_helpers() {
    assert_eq!(request_file_path("/docs/"), "/docs/index.html");
    assert_eq!(request_file_path("/a.css"), "/a.css");
    assert_eq!(content_type_for("/INDEX.HTML"), "text/html");
    assert_eq!(content_type_for("/photo.JPEG"), "image/jpeg");
    assert_eq!(content_type_for("/archive.tar.gz"), "text/plain");
    assert_eq!(content_type_for_lowercase("/a/app.js"), "text/javascript");
    assert_eq!(content_type_for_lowercase("/icon.ico"), "image/x-icon");
    assert_eq!(content_type_for_lowercase("/README"), "text/plain");
    assert_eq!(status_code(FileOpenStatus::SUCCESS), 200);
    assert_eq!(status_code(FileOpenStatus::DNE), 404);
    assert_eq!(status_code(FileOpenStatus::ERROR), 500);
    assert_eq!(not_found_body("/x"), "File /x not found");
}
