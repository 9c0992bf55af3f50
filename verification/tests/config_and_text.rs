use streamdrop::config::{has_supported_extension, is_supported_mime, MAX_UPLOAD_BYTES};
use streamdrop::text::{str_lex_le, i64_to_decimal, lines, replace, split, str_eq, trim_chars, u64_to_decimal};
use streamdrop::utils::{prefixed_id, generate_job_id, generate_share_token, generate_video_id, generate_worker_id, now_iso};
use streamdrop::db::migrations::migration_statements;

#[test]
fn max_upload_is_one_gibibyte() {
    assert_eq!(MAX_UPLOAD_BYTES, 1_073_741_824);
}

#[test]
fn supported_extensions_are_accepted() {
    for name in ["a.mp4", "a.mov", "a.webm", "a.avi", "a.mkv", "sample-5s.mp4"] {
        assert!(has_supported_extension(name), "{name}");
    }
}

#[test]
fn extension_check_ignores_case() {
    assert!(has_supported_extension("CLIP.MP4"));
    assert!(has_supported_extension("Holiday.MoV"));
}

#[test]
fn unsupported_extensions_are_refused() {
    for name in ["bad.txt", "video.exe", "mp4", "movie.mp4.txt", "", ".mp"] {
        assert!(!has_supported_extension(name), "{name}");
    }
}

#[test]
fn supported_mime_types_are_accepted() {
    for m in ["video/mp4", "video/quicktime", "video/webm", "video/x-msvideo", "video/x-matroska"] {
        assert!(is_supported_mime(m), "{m}");
    }
}

#[test]
fn mime_comparison_is_exact() {
    for m in ["text/plain", "VIDEO/MP4", "video/mp4 ", "", "video/"] {
        assert!(!is_supported_mime(m), "{m}");
    }
}

#[test]
fn decimal_formatting() {
    assert_eq!(u64_to_decimal(0), "0");
    assert_eq!(u64_to_decimal(1073741824), "1073741824");
    assert_eq!(u64_to_decimal(u64::MAX), u64::MAX.to_string());
    assert_eq!(i64_to_decimal(-42), "-42");
    assert_eq!(i64_to_decimal(i64::MIN), i64::MIN.to_string());
    assert_eq!(i64_to_decimal(2000000000), "2000000000");
}

#[test]
fn string_equality() {
    assert!(str_eq("abc", "abc"));
    assert!(!str_eq("abc", "abd"));
    assert!(!str_eq("abc", "ab"));
    assert!(str_eq("", ""));
}

#[test]
fn replace_matches_std() {
    for (s, p, r) in [
        ("0/index.m3u8\n1/index.m3u8", "0/index.m3u8", "720p/index.m3u8"),
        ("aaaa", "aa", "b"),
        ("abc", "x", "y"),
        ("", "a", "b"),
        ("éaé", "é", "e"),
    ] {
        assert_eq!(replace(s, p, r), s.replace(p, r));
    }
}

fn as_strings(v: Vec<Vec<char>>) -> Vec<String> {
    v.into_iter().map(|l| l.into_iter().collect()).collect()
}

#[test]
fn lines_match_std() {
    for s in ["", "a", "a\n", "a\n\n", "\n", "a\r\nb", "a\r\nb\r", "x\ny\nz", "\r\n\r\n"] {
        let expected: Vec<String> = s.lines().map(|l| l.to_string()).collect();
        assert_eq!(as_strings(lines(s)), expected, "{s:?}");
    }
}

#[test]
fn split_matches_std() {
    for s in ["", ";", "a;b", "a;;b;", "no separator"] {
        let expected: Vec<String> = s.split(';').map(|l| l.to_string()).collect();
        assert_eq!(as_strings(split(s, ';')), expected, "{s:?}");
    }
}

#[test]
fn trim_matches_std() {
    for s in ["", "  ", " a ", "\t\nx y\r\n", "\u{3000}z\u{85}", "abc"] {
        let cs: Vec<char> = s.chars().collect();
        let t: String = trim_chars(&cs).into_iter().collect();
        assert_eq!(t, s.trim(), "{s:?}");
    }
}

#[test]
fn migration_script_is_split_into_statements() {
    let sql = "CREATE TABLE a (x TEXT);\n\nCREATE INDEX i ON a(x);\n  ;\n";
    assert_eq!(
        migration_statements(sql),
        vec!["CREATE TABLE a (x TEXT)".to_string(), "CREATE INDEX i ON a(x)".to_string()]
    );
    assert!(migration_statements("  \n ; ;").is_empty());
}

fn check_prefixed(id: &str, prefix: &str) {
    assert!(id.starts_with(prefix), "{id}");
    let rest = &id[prefix.len()..];
    assert_eq!(rest.len(), 32, "{id}");
    assert!(rest.chars().all(|c| c.is_ascii_digit() || ('a'..='f').contains(&c)), "{id}");
}

#[test]
fn generated_identifiers_have_their_prefix() {
    check_prefixed(&generate_video_id(), "vid_");
    check_prefixed(&generate_share_token(), "shr_");
    check_prefixed(&generate_job_id(), "job_");
    check_prefixed(&generate_worker_id(), "worker_");
}

#[test]
fn generated_identifiers_differ() {
    assert_ne!(generate_video_id(), generate_video_id());
    assert_ne!(generate_share_token(), generate_share_token());
}

#[test]
fn now_is_rfc3339_seconds_utc() {
    let now = now_iso();
    assert_eq!(now.len(), 20, "{now}");
    assert!(now.ends_with('Z'));
    assert_eq!(&now[4..5], "-");
    assert_eq!(&now[10..11], "T");
}

#[test]
fn whitespace_matches_std_for_every_char() {
    for u in 0u32..=0x10FFFF {
        if let Some(c) = char::from_u32(u) {
            assert_eq!(streamdrop::text::is_whitespace(c), c.is_whitespace(), "{u:#x}");
        }
    }
}

#[test]
fn extension_check_uses_unicode_lowercase() {
    // KELVIN SIGN lowercases to an ASCII `k`.
    assert!(has_supported_extension("video.M\u{212A}V"));
}

#[test]
fn prefixed_ids_join_prefix_and_draw() {
    assert_eq!(prefixed_id("vid_", "0123456789abcdef0123456789abcdef"), "vid_0123456789abcdef0123456789abcdef");
}

#[test]
fn lexicographic_order() {
    for (a, b) in [("", ""), ("a", "b"), ("b", "a"), ("ab", "a"), ("a", "ab"), ("2026-03-08T12:00:00Z", "2026-03-08T11:59:59Z")] {
        assert_eq!(str_lex_le(a, b), a <= b, "{a} {b}");
    }
}
