use wireguard_tui::dto::Client;
use wireguard_tui::wireguard::split_lines;
use wireguard_tui::wireguard::split_words;
use wireguard_tui::wireguard::whitespace;
use wireguard_tui::wireguard::ProviderError;
use wireguard_tui::wireguard::Wireguard;

fn peer(address: &str, public_key: &str) -> Client {
    Client { name: String::new(), address: address.to_string(), public_key: public_key.to_string() }
}

const SAMPLES: [&str; 16] = [
    "",
    "\n",
    "\n\n",
    "a",
    "a\n",
    "a\nb",
    "a\n\nb\n",
    "\na",
    "wg0\tabc=\t10.0.0.2/32\n",
    "wg0\tabc=\t10.0.0.2/32\r\nwg0\tdef=\t10.0.0.3/32\r\n",
    "  lead and trail  \n\t\ttabs\t\n",
    "one\u{a0}two\u{2003}three\u{3000}four",
    "zero\u{200b}width stays",
    "x\r",
    "\r\n\r\n",
    " \n \n",
];

#[test]
fn whitespace_agrees_with_the_standard_library_on_every_character() {
    for code in 0..=0x10FFFFu32 {
        if let Some(chr) = char::from_u32(code) {
            assert_eq!(whitespace(chr), chr.is_whitespace(), "U+{:04X}", code);
        }
    }
}

#[test]
fn whitespace_exact_values() {
    for chr in [' ', '\t', '\n', '\r', '\u{b}', '\u{c}', '\u{85}', '\u{a0}', '\u{1680}', '\u{2000}', '\u{200a}', '\u{2028}', '\u{2029}', '\u{202f}', '\u{205f}', '\u{3000}'] {
        assert!(whitespace(chr), "{:?}", chr);
    }
    for chr in ['a', '0', '/', '=', '\u{8}', '\u{e}', '\u{1f}', '\u{84}', '\u{86}', '\u{200b}', '\u{180e}', '\u{feff}', '\u{2007}' ] {
        assert_eq!(whitespace(chr), chr == '\u{2007}', "{:?}", chr);
    }
}

#[test]
fn split_lines_exact_values() {
    assert_eq!(split_lines(""), Vec::<String>::new());
    assert_eq!(split_lines("\n"), vec![""]);
    assert_eq!(split_lines("a"), vec!["a"]);
    assert_eq!(split_lines("a\n"), vec!["a"]);
    assert_eq!(split_lines("a\nb"), vec!["a", "b"]);
    assert_eq!(split_lines("a\n\nb\n"), vec!["a", "", "b"]);
    assert_eq!(split_lines("\n\n"), vec!["", ""]);
    assert_eq!(split_lines("a b\tc\n d "), vec!["a b\tc", " d "]);
}

#[test]
fn split_lines_gives_as_many_lines_as_the_standard_library() {
    for sample in SAMPLES {
        let lines = split_lines(sample);
        let expected: Vec<&str> = sample.lines().collect();
        assert_eq!(lines.len(), expected.len(), "{:?}", sample);
        for (line, expected_line) in lines.iter().zip(expected) {
            assert_eq!(line.trim(), expected_line.trim(), "{:?}", sample);
        }
    }
}

#[test]
fn split_words_exact_values() {
    assert_eq!(split_words(""), Vec::<String>::new());
    assert_eq!(split_words("   "), Vec::<String>::new());
    assert_eq!(split_words("a"), vec!["a"]);
    assert_eq!(split_words(" a"), vec!["a"]);
    assert_eq!(split_words("a "), vec!["a"]);
    assert_eq!(split_words("ab  cd\te"), vec!["ab", "cd", "e"]);
    assert_eq!(split_words("wg0\tKEY=\t10.0.0.2/32\r"), vec!["wg0", "KEY=", "10.0.0.2/32"]);
    assert_eq!(split_words("one\u{a0}two\u{3000}three"), vec!["one", "two", "three"]);
    assert_eq!(split_words("zero\u{200b}width"), vec!["zero\u{200b}width"]);
}

#[test]
fn split_words_agrees_with_the_standard_library() {
    for sample in SAMPLES {
        let expected: Vec<&str> = sample.split_whitespace().collect();
        assert_eq!(split_words(sample), expected, "{:?}", sample);
    }
}

#[test]
fn parse_client_takes_second_and_third_word() {
    assert_eq!(
        Wireguard::parse_client("wg0\tpubkey=\t10.0.0.2/32"),
        Some(peer("10.0.0.2/32", "pubkey="))
    );
    assert_eq!(
        Wireguard::parse_client("  wg0 pubkey= 10.0.0.2/32 10.0.0.3/32  "),
        Some(peer("10.0.0.2/32", "pubkey="))
    );
    assert_eq!(Wireguard::parse_client("wg0\tpubkey=\t(none)"), Some(peer("(none)", "pubkey=")));
}

#[test]
fn parse_client_needs_three_words() {
    assert_eq!(Wireguard::parse_client(""), None);
    assert_eq!(Wireguard::parse_client("   "), None);
    assert_eq!(Wireguard::parse_client("wg0"), None);
    assert_eq!(Wireguard::parse_client("wg0\tpubkey="), None);
    assert_eq!(Wireguard::parse_client("wg0\tpubkey=\t"), None);
}

#[test]
fn parse_clients_reads_every_line() {
    let listing = "wg0\tAAAA=\t10.0.0.2/32\nwg0\tBBBB=\t10.0.0.3/32\nwg1\tCCCC=\t10.1.0.2/32 fd00::2/128\n";
    assert_eq!(
        Wireguard::parse_clients(listing),
        Ok(vec![peer("10.0.0.2/32", "AAAA="), peer("10.0.0.3/32", "BBBB="), peer("10.1.0.2/32", "CCCC=")])
    );
}

#[test]
fn parse_clients_of_empty_listing_is_empty() {
    assert_eq!(Wireguard::parse_clients(""), Ok(Vec::new()));
}

#[test]
fn parse_clients_accepts_missing_final_newline_and_carriage_returns() {
    assert_eq!(
        Wireguard::parse_clients("wg0 AAAA= 10.0.0.2/32\r\nwg0 BBBB= 10.0.0.3/32"),
        Ok(vec![peer("10.0.0.2/32", "AAAA="), peer("10.0.0.3/32", "BBBB=")])
    );
}

#[test]
fn parse_clients_refuses_listing_with_a_short_line() {
    assert_eq!(
        Wireguard::parse_clients("wg0\tAAAA=\t10.0.0.2/32\nwg0\tBBBB=\n"),
        Err(ProviderError::Enumeration)
    );
    assert_eq!(
        Wireguard::parse_clients("wg0\nwg0\tBBBB=\t10.0.0.3/32\n"),
        Err(ProviderError::Enumeration)
    );
}

#[test]
fn parse_clients_refuses_listing_with_a_blank_line() {
    assert_eq!(Wireguard::parse_clients("\n"), Err(ProviderError::Enumeration));
    assert_eq!(
        Wireguard::parse_clients("wg0\tAAAA=\t10.0.0.2/32\n\nwg0\tBBBB=\t10.0.0.3/32\n"),
        Err(ProviderError::Enumeration)
    );
    assert_eq!(
        Wireguard::parse_clients("wg0\tAAAA=\t10.0.0.2/32\n\n"),
        Err(ProviderError::Enumeration)
    );
}

#[test]
fn parse_clients_agrees_with_line_by_line_reading() {
    for sample in SAMPLES {
        let expected: Option<Vec<Client>> = sample
            .lines()
            .map(|line| {
                let mut words = line.trim().split_whitespace().skip(1);
                let public_key = words.next()?.to_string();
                let address = words.next()?.to_string();
                Some(Client { name: String::new(), address, public_key })
            })
            .collect();
        assert_eq!(Wireguard::parse_clients(sample).ok(), expected, "{:?}", sample);
    }
}

#[test]
fn peer_source_takes_every_client() {
    assert_eq!(Wireguard::add_client(peer("10.0.0.2/32", "AAAA=")), Ok(()));
    assert_eq!(Wireguard::add_client(peer("", "")), Ok(()));
    assert_eq!(
        Wireguard::add_client(Client {
            name: "alice".to_string(),
            address: "not an address".to_string(),
            public_key: "pubkeyXYZ".to_string(),
        }),
        Ok(())
    );
}

#[test]
fn provider_error_messages() {
    assert_eq!(ProviderError::Enumeration.message(), "The peers could not be listed.");
    assert_eq!(ProviderError::Rejected.message(), "The peer source refused the client.");
    assert_eq!(ProviderError::Apply.message(), "The change could not be applied.");
}
