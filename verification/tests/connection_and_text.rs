use rusty_zechub::connection::{connection_message, NodeConnection};
use rusty_zechub::decimal::{format_i64, format_u64};
use rusty_zechub::text::{count_lines, is_whitespace_char, trim_input};

#[test]
fn display_joins_url_and_port() {
    let c = NodeConnection::new(String::from("http://127.0.0.1"), 8232);
    assert_eq!(c.display(), "http://127.0.0.1:8232");
}

#[test]
fn display_negative_and_zero_port() {
    let c = NodeConnection::new(String::from("host"), -5);
    assert_eq!(c.display(), "host:-5");
    let z = NodeConnection::new(String::new(), 0);
    assert_eq!(z.display(), ":0");
    let m = NodeConnection::new(String::from("h"), i32::MIN);
    assert_eq!(m.display(), "h:-2147483648");
}

#[test]
fn banner_names_the_address() {
    let c = NodeConnection::new(String::from("http://127.0.0.1"), 8232);
    assert_eq!(
        c.connect_banner(),
        "\nAttempting to connect to Zebrad @ http://127.0.0.1:8232\n.\n.\n."
    );
}

#[test]
fn connected_only_on_200() {
    assert_eq!(connection_message(200), "Connected!");
    assert_eq!(connection_message(0), "No response!");
    assert_eq!(connection_message(404), "No response!");
    assert_eq!(connection_message(2000), "No response!");
}

#[test]
fn decimal_matches_to_string() {
    for n in [0u64, 1, 9, 10, 99, 100, 8232, 1234567890, u64::MAX] {
        assert_eq!(format_u64(n), n.to_string());
    }
    for n in [0i64, -1, 7, -10, 42, i64::MAX, i64::MIN] {
        assert_eq!(format_i64(n), n.to_string());
    }
}

#[test]
fn trim_matches_str_trim() {
    let samples = [
        "",
        "   ",
        "abc",
        "  abc  \n",
        "\t\r\nab c\u{3000}",
        "\u{85}x\u{a0}",
        "\u{200b}x",
        "a b",
    ];
    for s in samples {
        assert_eq!(trim_input(s), s.trim());
    }
}

#[test]
fn trim_twice_is_trim_once() {
    let s = " \t 7f3a\u{2028}\n";
    let once = trim_input(s);
    assert_eq!(trim_input(&once), once);
    assert_eq!(once, "7f3a");
}

#[test]
fn whitespace_agrees_with_char() {
    for code in 0u32..0x3100 {
        if let Some(c) = char::from_u32(code) {
            assert_eq!(is_whitespace_char(c), c.is_whitespace(), "{:?}", c);
        }
    }
}

#[test]
fn line_count_matches_lines() {
    let samples = ["", "\n", "a", "a\n", "a\nb", "a\nb\n", "\n\n", "a\r\nb\r\n", "\"1.2.3.4:8233\"\n\"5.6.7.8:8233\"\n"];
    for s in samples {
        assert_eq!(count_lines(s), s.lines().count(), "{:?}", s);
    }
}

#[test]
fn appending_a_line_adds_one() {
    let mut listing = String::new();
    for (k, peer) in ["\"1.2.3.4:8233\"", "\"[::1]:8233\"", ""].iter().enumerate() {
        assert_eq!(count_lines(&listing), k);
        listing.push_str(peer);
        listing.push('\n');
        assert_eq!(count_lines(&listing), k + 1);
    }
}
