//! Text, JSON, errors and time, as the rest of the library uses them.

use signet_cli::clock::{Moment, Span};
use signet_cli::error::{CliError, CryptoError, CryptoFailure};
use signet_cli::garnet_revocation::{
    Decision, GrantLease, GrantStatusOutcome, LeaseConfig, LEASE_MAX_SECS, OUTAGE_GRACE_MAX_SECS,
};
use signet_cli::json::{parse, parse_bytes, write_text_object, Json};
use signet_cli::random::drawn_in_hex;
use signet_cli::text::{
    bytes_of, chars_of, contains, copy_bytes, ends_with, eq_ignore_ascii_case, first_chars,
    is_listed, join2, join3, join4, join5, join6, matches_at, not_after, parse_u64, same,
    same_bytes, split, starts_with, strip_suffix, to_decimal, to_signed_decimal, trim,
    trim_end_matches,
};

#[test]
fn texts_are_compared_and_searched() {
    assert!(same("ä", "ä"));
    assert!(!same("a", "ab"));
    assert!(starts_with("abc", "ab") && !starts_with("abc", "b") && starts_with("", ""));
    assert!(ends_with("abc", "bc") && !ends_with("c", "bc"));
    assert!(contains("a-25308b", "-25308") && !contains("-2530", "-25308"));
    assert!(contains("x", ""));
    assert!(eq_ignore_ascii_case("AbC", "aBc") && !eq_ignore_ascii_case("Ä", "ä"));
    assert!(not_after("a", "b") && not_after("a", "a") && !not_after("b", "a"));
    assert!(not_after("a", "ab") && !not_after("ab", "a"));
    assert!(is_listed(&vec!["a".into(), "b".into()], "b"));
    assert!(!is_listed(&vec![], "b"));
    assert!(matches_at(&chars_of("hello"), &chars_of("ll"), 2));
    assert!(!matches_at(&chars_of("hello"), &chars_of("lo"), 4));
    assert!(same_bytes(&[1, 2], &[1, 2]) && !same_bytes(&[1], &[1, 2]));
}

#[test]
fn texts_are_cut_and_joined() {
    assert_eq!(strip_suffix("a-kem", "-kem"), Some("a"));
    assert_eq!(strip_suffix("a-kem", "-pq"), None);
    assert_eq!(trim(" \t\u{a0}x y\n"), "x y");
    assert_eq!(trim("\u{200b}x"), "\u{200b}x");
    assert_eq!(trim_end_matches("https://h///", '/'), "https://h");
    assert_eq!(split("a.b..c", '.'), ["a", "b", "", "c"]);
    assert_eq!(split("", '.'), [""]);
    assert_eq!(first_chars("äöü", 2), "äö");
    assert_eq!(first_chars("ä", 5), "ä");
    assert_eq!(bytes_of("ä"), vec![0xc3, 0xa4]);
    assert_eq!(copy_bytes(&[1, 2]), vec![1, 2]);
    assert_eq!(join2("a", "b"), "ab");
    assert_eq!(join3("a", "b", "c"), "abc");
    assert_eq!(join4("a", "b", "c", "d"), "abcd");
    assert_eq!(join5("a", "b", "c", "d", "e"), "abcde");
    assert_eq!(join6("a", "b", "c", "d", "e", "f"), "abcdef");
}

#[test]
fn numbers_are_read_and_written() {
    assert_eq!(parse_u64("18446744073709551615"), Some(u64::MAX));
    assert_eq!(parse_u64("18446744073709551616"), None);
    assert_eq!(parse_u64("007"), Some(7));
    assert_eq!(parse_u64(""), None);
    assert_eq!(parse_u64("+7"), None);
    assert_eq!(parse_u64("7a"), None);
    assert_eq!(to_decimal(0), "0");
    assert_eq!(to_decimal(u64::MAX), "18446744073709551615");
    assert_eq!(to_signed_decimal(i32::MIN), "-2147483648");
    assert_eq!(to_signed_decimal(42), "42");
}

#[test]
fn json_is_read_into_a_tree() {
    let v = parse(r#"{"a":"x","b":[1,-2,2.5,18446744073709551615],"c":true,"d":null}"#).unwrap();
    assert_eq!(v.get_str("a"), Some("x"));
    assert_eq!(v.get_bool("c"), Some(true));
    assert!(matches!(v.get("d"), Some(Json::Null)));
    assert_eq!(v.get_str("b"), None);
    assert_eq!(v.get_i64("a"), None);
    let b = v.get_array("b").unwrap();
    assert!(matches!(b[0], Json::Number(Some(1))));
    assert!(matches!(b[1], Json::Number(Some(-2))));
    assert!(matches!(b[2], Json::Number(None)));
    assert!(matches!(b[3], Json::Number(None)));
    assert!(parse("{").unwrap_err().contains("EOF"));
    assert!(parse_bytes(&[0xff]).is_none());
    assert_eq!(parse_bytes(br#"{"n":7}"#).unwrap().get_i64("n"), Some(7));
}

#[test]
fn written_json_reads_back() {
    let text = write_text_object("k\"", "line\nü");
    assert_eq!(text, "{\"k\\\"\":\"line\\nü\"}");
    assert_eq!(parse(&text).unwrap().get_str("k\""), Some("line\nü"));
}

#[test]
fn each_failure_has_its_code() {
    let e = CliError::new(3, "c", "m");
    assert_eq!((e.exit_code, e.code, e.message.as_str()), (3, "c", "m"));
    assert_eq!(e.to_line(), "c: m");
    assert_eq!(e.copy().to_line(), "c: m");
    let all = [
        CliError::generic(""),
        CliError::invalid_args(""),
        CliError::authentication_failed(""),
        CliError::key_exists(""),
        CliError::key_not_found(""),
        CliError::signature_invalid(""),
        CliError::attestation_expired(""),
        CliError::attestation_revoked(""),
        CliError::authorization_denied(""),
        CliError::insufficient_storage(""),
        CliError::filesystem(""),
        CliError::input_read(""),
        CliError::output_write(""),
        CliError::invalid_data(""),
        CliError::name_too_long(""),
        CliError::not_found(""),
        CliError::conflict(""),
        CliError::transfer_stalled(""),
        CliError::encryption_failed(""),
        CliError::unsupported_algorithm(""),
        CliError::decrypt_failed(""),
        CliError::config(""),
        CliError::unsupported_platform(""),
        CliError::se_locked(""),
        CliError::transparency_violation(""),
        CliError::identity_mismatch(""),
    ];
    for (i, a) in all.iter().enumerate() {
        for b in &all[i + 1..] {
            assert_ne!(a.exit_code, b.exit_code, "{} and {}", a.code, b.code);
            assert_ne!(a.code, b.code);
        }
    }
}

#[test]
fn crypto_failures_are_mapped() {
    let of = |failure: CryptoFailure| {
        CliError::from_crypto(CryptoError { failure, detail: "d".to_string() })
    };
    assert_eq!(of(CryptoFailure::Authentication).code, CliError::decrypt_failed("").code);
    assert_eq!(of(CryptoFailure::SignatureInvalid).code, CliError::signature_invalid("").code);
    assert_eq!(of(CryptoFailure::UnknownAlgorithm).code, "unsupported_algorithm");
    assert_eq!(of(CryptoFailure::InvalidInput).code, "invalid_arguments");
}

#[test]
fn spans_add_up_and_never_go_below_nothing() {
    let s = Span::from_millis(1500);
    assert_eq!(s.as_secs(), 1);
    assert_eq!(s.as_millis(), 1500);
    assert_eq!(s.subsec_nanos(), 500_000_000);
    assert_eq!(s.plus(&Span::from_millis(500)), Span::from_secs(2));
    assert_eq!(Span::from_secs(2).beyond(&s), Span::from_millis(500));
    assert_eq!(s.beyond(&Span::from_secs(2)), Span::from_secs(0));
    assert_eq!(Span::from_nanos(1_000_000_001).as_secs(), 1);
    let m = Moment { since_origin: Span::from_secs(10) };
    let later = m.after(Span::from_secs(5));
    assert_eq!(later.saturating_since(&m), Span::from_secs(5));
    assert_eq!(m.saturating_since(&later), Span::from_secs(0));
}

#[test]
fn a_configured_bound_is_never_exceeded() {
    let cfg = LeaseConfig {
        lease: Span::from_secs(30),
        outage_grace: Span::from_secs(90),
        token_skew: Span::from_secs(30),
    };
    assert!(LEASE_MAX_SECS < OUTAGE_GRACE_MAX_SECS);
    let over = cfg.with_server_values(i64::MAX, i64::MAX);
    assert_eq!(over.lease, cfg.lease);
    assert_eq!(over.outage_grace, cfg.outage_grace);
    assert!(cfg.over_budget_notice(120, 600).is_some());
    assert!(cfg.over_budget_notice(10, 20).is_none());
    let tight = cfg.with_server_values(10, 20);
    assert_eq!(tight.lease, Span::from_secs(10));
    assert_eq!(tight.outage_grace, Span::from_secs(20));
    let mut lease = GrantLease::new();
    let now = Moment { since_origin: Span::from_secs(5) };
    let d = lease.on_grant_status(GrantStatusOutcome::live(100), now, 50, &cfg);
    assert!(d != Decision::Serve, "an expired token is never served");
}

#[test]
fn drawn_bytes_are_written_in_hexadecimal() {
    assert_eq!(drawn_in_hex(Some([0x00, 0x0a, 0xff])).as_deref(), Some("000aff"));
    assert_eq!(drawn_in_hex::<8>(None), None);
}
