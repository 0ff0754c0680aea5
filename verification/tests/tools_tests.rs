use slime_server::mod_tools::client::{accounts_path, bans_path, mailbox_path, request_error, trim_base_url, ApiResponse};
use slime_server::mod_tools::interactive::{parse_interactive_command, split_words, InteractiveCommand};
use slime_server::sor::{
    build_sor, list_sor, parse_sor, read_be_u16, read_be_u32, sor_list_would_panic, sor_parse_panics,
    sort_entries_by_name, write_be_u16, write_be_u32, xor_crypt, FileEntry, SorLine,
};

fn entry(name: &str, data: &[u8]) -> FileEntry {
    FileEntry { filename: name.to_string(), data: data.to_vec() }
}

#[test]
fn test_xor_crypt() {
    assert_eq!(xor_crypt(&[1, 2, 3, 4, 5], &[0xFF, 0x0F]), vec![0xFE, 0x0D, 0xFC, 0x0B, 0xFA]);
    assert_eq!(xor_crypt(&[], &[]), Vec::<u8>::new());
    let once = xor_crypt(b"secret data", b"pw");
    assert_eq!(xor_crypt(&once, b"pw"), b"secret data".to_vec());
}

#[test]
fn test_big_endian_helpers() {
    assert_eq!(write_be_u16(0x1234), [0x12, 0x34]);
    assert_eq!(write_be_u32(0x01020304), [1, 2, 3, 4]);
    assert_eq!(read_be_u16(&[0xAB, 0xCD], 0), 0xABCD);
    assert_eq!(read_be_u32(&[0, 0xDE, 0xAD, 0xBE, 0xEF], 1), 0xDEADBEEF);
}

#[test]
fn test_build_sor_layout() {
    let entries = vec![entry("a", &[1, 2]), entry("bc", &[3])];
    let archive = build_sor(&entries, &[0]);
    // count, one offset (end of first record = 2 + 1 + 2), then the records.
    assert_eq!(archive, vec![0, 2, 0, 0, 0, 5, 0, 1, b'a', 1, 2, 0, 2, b'b', b'c', 3]);
}

#[test]
fn test_sor_roundtrip() {
    let entries = vec![entry("one.txt", b"hello"), entry("two.bin", &[0, 1, 2, 255]), entry("empty", &[])];
    let key = b"password";
    let archive = build_sor(&entries, key);
    assert!(!sor_parse_panics(&archive, key));
    let back = parse_sor(&archive, key).unwrap();
    assert_eq!(back.len(), 3);
    for (a, b) in entries.iter().zip(back.iter()) {
        assert_eq!(a.filename, b.filename);
        assert_eq!(a.data, b.data);
    }
}

#[test]
fn test_sor_errors() {
    assert_eq!(parse_sor(&[0, 1, 0], b"k").err(), Some("File too small".to_string()));
    assert_eq!(parse_sor(&[0, 0, 0, 0, 0, 0], b"k").err(), Some("No files in archive".to_string()));
    assert_eq!(parse_sor(&[0, 3, 0, 0, 0, 0], b"k").err(), Some("File too small for header".to_string()));
    // One file whose record is a single byte.
    assert_eq!(parse_sor(&[0, 1, 0, 0, 0, 0, 7], b"k").err(), None);
    assert_eq!(parse_sor(&[0, 1, 0, 9, b'x', b'y'], b"k").err(), Some("File 0 has invalid filename length".to_string()));
    // Two files, the first claimed to end past the archive.
    assert_eq!(
        parse_sor(&[0, 2, 0, 0, 0, 50, 0, 0], b"k").err(),
        Some("File 0 extends past end of archive".to_string())
    );
}

#[test]
fn test_sor_panicking_inputs_are_recognised() {
    // Offsets out of order.
    assert!(sor_parse_panics(&[0, 3, 0, 0, 0, 4, 0, 0, 0, 2, 0, 0, 0, 0, 0, 0], b"k"));
    // Content but an empty key.
    assert!(sor_parse_panics(&[0, 1, 0, 1, b'a', 9], b""));
    assert!(!sor_parse_panics(&[0, 1, 0, 1, b'a', 9], b"k"));
}

#[test]
fn test_split_words() {
    assert_eq!(split_words("  give  bob 10 "), vec!["give".to_string(), "bob".to_string(), "10".to_string()]);
    assert!(split_words("   ").is_empty());
}

#[test]
fn test_interactive_commands() {
    assert_eq!(parse_interactive_command(""), InteractiveCommand::Empty);
    assert_eq!(parse_interactive_command("q"), InteractiveCommand::Quit);
    assert_eq!(parse_interactive_command("exit"), InteractiveCommand::Quit);
    assert_eq!(parse_interactive_command("?"), InteractiveCommand::Help);
    assert_eq!(parse_interactive_command("stats"), InteractiveCommand::Stats);
    assert_eq!(
        parse_interactive_command("player Bob"),
        InteractiveCommand::Player { username: "Bob".to_string() }
    );
    assert_eq!(
        parse_interactive_command("give Bob -25"),
        InteractiveCommand::Give { username: "Bob".to_string(), amount: -25 }
    );
    assert_eq!(parse_interactive_command("give Bob lots"), InteractiveCommand::InvalidAmount);
    assert_eq!(
        parse_interactive_command("tp Bob 32"),
        InteractiveCommand::Teleport { username: "Bob".to_string(), room: 32, x: 100, y: 100 }
    );
    assert_eq!(
        parse_interactive_command("tp Bob 32 385 71"),
        InteractiveCommand::Teleport { username: "Bob".to_string(), room: 32, x: 385, y: 71 }
    );
    assert_eq!(parse_interactive_command("tp Bob 70000"), InteractiveCommand::InvalidRoom);
    assert_eq!(parse_interactive_command("tp Bob 1 2 x"), InteractiveCommand::InvalidTeleport);
    assert_eq!(parse_interactive_command("unban 12"), InteractiveCommand::Unban { id: 12 });
    assert_eq!(parse_interactive_command("unban x"), InteractiveCommand::InvalidBanId);
    assert_eq!(parse_interactive_command("kick"), InteractiveCommand::Unknown);
    assert_eq!(parse_interactive_command("dance"), InteractiveCommand::Unknown);
}

#[test]
fn test_sort_entries_by_name() {
    let entries = vec![entry("b.png", &[2]), entry("a.png", &[1]), entry("B.png", &[3]), entry("a", &[4])];
    let sorted = sort_entries_by_name(entries);
    let names: Vec<&str> = sorted.iter().map(|e| e.filename.as_str()).collect();
    assert_eq!(names, vec!["B.png", "a", "a.png", "b.png"]);
    assert_eq!(sorted[2].data, vec![1]);
}

#[test]
fn test_list_sor() {
    let entries = vec![entry("one", b"abc"), entry("two", b"")];
    let archive = build_sor(&entries, b"k");
    assert!(!sor_list_would_panic(&archive));
    let listing = list_sor(&archive).unwrap();
    assert_eq!(listing.file_count, 2);
    assert_eq!(listing.header_size, 6);
    assert_eq!(
        listing.lines,
        vec![
            SorLine::File { index: 0, name: "one".to_string(), size: 3 },
            SorLine::File { index: 1, name: "two".to_string(), size: 0 },
        ]
    );
    assert!(list_sor(&[0, 1, 0]).is_none());
}

#[test]
fn test_list_sor_problems() {
    // First entry too small, second claims a long name, third too small.
    let data = [0, 3, 0, 0, 0, 1, 0, 0, 0, 4, 9, 0, 9, 0, 0];
    assert!(!sor_list_would_panic(&data));
    let listing = list_sor(&data).unwrap();
    assert_eq!(
        listing.lines,
        vec![SorLine::TooSmall { index: 0 }, SorLine::BadNameLength { index: 1 }, SorLine::TooSmall { index: 2 }]
    );
    let past = [0, 2, 0, 0, 0, 40, 0, 0];
    assert_eq!(list_sor(&past).unwrap().lines, vec![SorLine::PastEnd { index: 0 }]);
    // No files, a header longer than the data, or offsets out of order.
    assert!(sor_list_would_panic(&[0, 0, 0, 0, 0, 0]));
    assert!(sor_list_would_panic(&[0, 9, 0, 0, 0, 0]));
    assert!(sor_list_would_panic(&[0, 3, 0, 0, 0, 4, 0, 0, 0, 2, 0, 0, 0, 0, 0, 0]));
}

#[test]
fn test_admin_client_paths() {
    assert_eq!(trim_base_url("http://localhost:8080//"), "http://localhost:8080");
    assert_eq!(trim_base_url("http://localhost:8080"), "http://localhost:8080");
    assert_eq!(trim_base_url("///"), "");
    assert_eq!(bans_path(None, false), "/api/bans");
    assert_eq!(bans_path(None, true), "/api/bans?include_expired=true");
    assert_eq!(bans_path(Some("ip"), false), "/api/bans?ban_type=ip");
    assert_eq!(bans_path(Some("ip"), true), "/api/bans?ban_type=ip&include_expired=true");
    assert_eq!(accounts_path(None, 50), "/api/accounts?limit=50");
    assert_eq!(accounts_path(Some("bob"), -1), "/api/accounts?limit=-1&search=bob");
    assert_eq!(mailbox_path("bob", 2), "/api/mail/bob?page=2");
    assert_eq!(request_error("404 Not Found", Some(Some("Player 'x' not found".to_string())), "{}"), "Player 'x' not found");
    assert_eq!(request_error("500 Internal Server Error", Some(None), "{}"), "HTTP 500 Internal Server Error");
    assert_eq!(request_error("502 Bad Gateway", None, "oops"), "HTTP 502 Bad Gateway: oops");
}

#[test]
fn test_api_response_into_result() {
    assert_eq!(ApiResponse { success: true, data: Some(5), error: None }.into_result(), Ok(5));
    assert_eq!(
        ApiResponse::<i32> { success: true, data: None, error: None }.into_result(),
        Err("No data in response".to_string())
    );
    assert_eq!(
        ApiResponse::<i32> { success: false, data: Some(1), error: Some("bad".to_string()) }.into_result(),
        Err("bad".to_string())
    );
    assert_eq!(
        ApiResponse::<i32> { success: false, data: None, error: None }.into_result(),
        Err("Unknown error".to_string())
    );
}

#[test]
fn test_ordered_offsets_with_key_do_not_panic() {
    // Two entries, the second starting at offset 4 of the data section.
    let archive = [0u8, 2, 0, 0, 0, 4, 0, 1, b'a', 9, 0, 1, b'b', 7];
    assert!(!sor_parse_panics(&archive, b"k"));
    let back = parse_sor(&archive, b"k").unwrap();
    assert_eq!(back.len(), 2);
    assert_eq!(back[0].filename, "a");
    assert_eq!(back[0].data, vec![9 ^ b'k']);
    assert_eq!(back[1].filename, "b");
    // A decreasing pair of offsets is what panics.
    let bad = [0u8, 3, 0, 0, 0, 6, 0, 0, 0, 2, 0, 1, b'a', 9, 0, 1, b'b', 7];
    assert!(sor_parse_panics(&bad, b"k"));
}
