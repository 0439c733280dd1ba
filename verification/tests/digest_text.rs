use jitregistry::buildah::{
    build_command, built_image_name, classify_entry, command_found, entry_target, graphroot_from_output,
    lookup_command, no_build_directory,
    manifest_path, try_graphroot_from_output, vec_u8_to_last_line, BuildError, BuildKind,
    EntryAction, GraphRootError,
};
use jitregistry::config::{default_cache_dir, WA};
use jitregistry::digest::{digest_hex, is_digest_reference, sha256_digest};
use jitregistry::text::{decimal_string, signed_decimal_string};
use std::path::PathBuf;

#[test]
fn sha256_digest_of_empty_input() {
    assert_eq!(
        sha256_digest(b""),
        "sha256:e3b0c44298fc1c149afbf4c8996fb92427ae41e4649b934ca495991b7852b855"
    );
}

#[test]
fn sha256_digest_of_abc() {
    assert_eq!(
        sha256_digest(b"abc"),
        "sha256:ba7816bf8f01cfea414140de5dae2223b00361a396177a9cb410ff61f20015ad"
    );
}

#[test]
fn computed_digest_is_a_digest_reference() {
    for data in [&b""[..], b"hello", b"{\"schemaVersion\":2}", &[0u8, 255, 16][..]] {
        let d = sha256_digest(data);
        assert_eq!(d.len(), 71);
        assert!(is_digest_reference(&d));
        let hex = digest_hex(&d).unwrap();
        assert_eq!(hex.len(), 64);
        assert_eq!(format!("sha256:{}", hex), d);
    }
}

#[test]
fn digest_reference_accepts_hex_after_prefix() {
    assert!(is_digest_reference("sha256:abc123"));
    assert!(is_digest_reference("sha256:ABCdef0189"));
    assert!(is_digest_reference("sha256:0"));
}

#[test]
fn digest_reference_rejects_other_text() {
    assert!(!is_digest_reference("sha256:"));
    assert!(!is_digest_reference("sha256:xyz"));
    assert!(!is_digest_reference("sha256:ab-cd"));
    assert!(!is_digest_reference("sha512:abcd"));
    assert!(!is_digest_reference("latest"));
    assert!(!is_digest_reference(""));
    assert!(!is_digest_reference("SHA256:abcd"));
    assert!(!is_digest_reference("sha256:ab\u{e9}"));
}

#[test]
fn digest_hex_strips_prefix() {
    assert_eq!(digest_hex("sha256:abc123"), Some("abc123"));
    assert_eq!(digest_hex("sha256:"), Some(""));
    assert_eq!(digest_hex("sha256:not-hex"), Some("not-hex"));
    assert_eq!(digest_hex("latest"), None);
    assert_eq!(digest_hex("sha25"), None);
}

#[test]
fn digest_hex_undoes_prefix() {
    for t in ["", "abc", "x/y:z", "\u{e9}\u{1f600}"] {
        let d = format!("sha256:{}", t);
        assert_eq!(digest_hex(&d), Some(t));
    }
}

#[test]
fn every_digest_reference_has_nonempty_hex() {
    for r in ["sha256:a", "sha256:0123456789abcdef", "sha256:FFFF"] {
        assert!(is_digest_reference(r));
        let h = digest_hex(r).unwrap();
        assert!(!h.is_empty());
        assert!(h.chars().all(|c| c.is_ascii_hexdigit()));
    }
}

#[test]
fn last_line_of_lines() {
    assert_eq!(vec_u8_to_last_line(b"a\nb\nc\n").unwrap(), "c");
    assert_eq!(vec_u8_to_last_line(b"a\nb\nc").unwrap(), "c");
    assert_eq!(vec_u8_to_last_line(b"one").unwrap(), "one");
    assert_eq!(vec_u8_to_last_line(b"").unwrap(), "");
    assert_eq!(vec_u8_to_last_line(b"\n").unwrap(), "");
    assert_eq!(vec_u8_to_last_line(b"a\n\n").unwrap(), "");
}

#[test]
fn last_line_carriage_returns() {
    assert_eq!(vec_u8_to_last_line(b"x\r\n").unwrap(), "x");
    assert_eq!(vec_u8_to_last_line(b"x\r").unwrap(), "x\r");
    assert_eq!(vec_u8_to_last_line(b"x\r\r\n").unwrap(), "x\r");
    assert_eq!(vec_u8_to_last_line(b"a\r\nb\r\n").unwrap(), "b");
    assert_eq!(vec_u8_to_last_line(b"\r\n").unwrap(), "");
}

#[test]
fn last_line_unicode() {
    assert_eq!(
        vec_u8_to_last_line("caf\u{e9}\n\u{1f600} ok\n".as_bytes()).unwrap(),
        "\u{1f600} ok"
    );
}

#[test]
fn last_line_rejects_invalid_utf8() {
    assert!(vec_u8_to_last_line(&[0xff]).is_err());
    assert!(vec_u8_to_last_line(&[b'a', b'\n', 0xc3]).is_err());
    assert!(vec_u8_to_last_line(&[0xed, 0xa0, 0x80]).is_err());
}

#[test]
fn last_line_agrees_with_str_lines() {
    let samples = ["", "a", "a\n", "a\nb", "a\r\nb\r\n", "\n\n", "x\ry", "tail\r", " \n \n"];
    for s in samples {
        let expected = s.lines().last().unwrap_or("").to_string();
        assert_eq!(vec_u8_to_last_line(s.as_bytes()).unwrap(), expected, "for {:?}", s);
    }
}

#[test]
fn last_line_has_no_line_feed() {
    for s in ["a\nb", "a\n", "\n\n\n", "x"] {
        assert!(!vec_u8_to_last_line(s.as_bytes()).unwrap().contains('\n'));
    }
}

#[test]
fn last_line_depends_only_on_text_after_break() {
    for (s, t) in [("abc", "def"), ("a\nb", "c\r\n"), ("", "\n"), ("x", "\r")] {
        let joined = format!("{}\n{}", s, t);
        assert_eq!(
            vec_u8_to_last_line(joined.as_bytes()).unwrap(),
            vec_u8_to_last_line(t.as_bytes()).unwrap()
        );
    }
}

#[test]
fn closing_line_feed_keeps_last_line() {
    for s in ["", "abc", "a\nb", "x y"] {
        let closed = format!("{}\n", s);
        assert_eq!(
            vec_u8_to_last_line(closed.as_bytes()).unwrap(),
            vec_u8_to_last_line(s.as_bytes()).unwrap()
        );
    }
}

#[test]
fn decimal_numerals() {
    assert_eq!(decimal_string(0), "0");
    assert_eq!(decimal_string(7), "7");
    assert_eq!(decimal_string(120), "120");
    assert_eq!(decimal_string(u64::MAX), "18446744073709551615");
    assert_eq!(signed_decimal_string(-1), "-1");
    assert_eq!(signed_decimal_string(125), "125");
    assert_eq!(signed_decimal_string(i32::MIN), "-2147483648");
}

#[test]
fn command_found_on_zero_status() {
    assert!(command_found(0));
    assert!(!command_found(1));
    assert!(!command_found(127));
}

#[test]
fn build_command_lines() {
    assert_eq!(build_command(BuildKind::Script, "/srv/app/build.sh"), "buildah unshare /srv/app/build.sh");
    assert_eq!(build_command(BuildKind::Containerfile, "/srv/app"), "buildah bud -t /srv/app");
}

#[test]
fn built_image_name_on_success() {
    let out = b"STEP 1/2: FROM alpine\nCOMMIT\n3f2e1d0c9b8a\n";
    assert_eq!(built_image_name(0, out).unwrap(), "3f2e1d0c9b8a");
}

#[test]
fn built_image_name_on_failure() {
    match built_image_name(1, b"anything\n") {
        Err(BuildError::Failed(m)) => assert_eq!(m, "buildah error"),
        other => panic!("unexpected {:?}", other),
    }
}

#[test]
fn built_image_name_on_invalid_output() {
    assert!(matches!(built_image_name(0, &[0xc3, 0x28]), Err(BuildError::InvalidUtf8(_))));
}

#[test]
fn classify_build_entries() {
    assert!(matches!(classify_entry(true, "Dockerfile"), EntryAction::Containerfile));
    assert!(matches!(classify_entry(true, "Containerfile.dev"), EntryAction::Containerfile));
    assert!(matches!(classify_entry(true, "Dockerfile.sh"), EntryAction::Containerfile));
    assert!(matches!(classify_entry(true, "build.sh"), EntryAction::Script));
    assert!(matches!(classify_entry(true, "sh"), EntryAction::Script));
    assert!(matches!(classify_entry(true, "README.md"), EntryAction::Skip));
    assert!(matches!(classify_entry(true, "dockerfile"), EntryAction::Skip));
    assert!(matches!(classify_entry(false, "Dockerfile"), EntryAction::Skip));
    assert!(matches!(classify_entry(false, "build.sh"), EntryAction::Skip));
}

#[test]
fn manifest_path_in_storage() {
    assert_eq!(
        manifest_path("/var/lib/containers/storage", "abc123"),
        "/var/lib/containers/storage/overlay-images/abc123/manifest"
    );
}

#[test]
fn graphroot_from_json_output() {
    let out = br#"{"host":{"os":"linux"},"store":{"GraphRoot":"  /var/lib/containers/storage \n"}}"#;
    assert_eq!(
        graphroot_from_output(Some(0), b"", out).unwrap(),
        "/var/lib/containers/storage"
    );
}

#[test]
fn graphroot_trims_unicode_white_space() {
    let out = "{\"store\":{\"GraphRoot\":\"\u{3000}\u{a0}/data\u{2029}\"}}";
    assert_eq!(graphroot_from_output(None, b"", out.as_bytes()).unwrap(), "/data");
}

#[test]
fn graphroot_reports_status_and_stderr() {
    match graphroot_from_output(Some(125), b"no such command", b"") {
        Err(GraphRootError::Report(m)) => assert_eq!(m, "buildah Error code: 125\nno such command"),
        other => panic!("unexpected {:?}", other),
    }
    match graphroot_from_output(Some(-1), b"", b"") {
        Err(GraphRootError::Report(m)) => assert_eq!(m, "buildah Error code: -1"),
        other => panic!("unexpected {:?}", other),
    }
    match graphroot_from_output(Some(0), b"", b"") {
        Err(GraphRootError::Report(m)) => assert_eq!(m, ""),
        other => panic!("unexpected {:?}", other),
    }
}

#[test]
fn graphroot_reports_parse_error() {
    match graphroot_from_output(Some(2), b"warn", b"not json") {
        Err(GraphRootError::Report(m)) => {
            let expected = serde_json::from_str::<serde_json::Value>("not json").unwrap_err().to_string();
            assert_eq!(m, format!("buildah Error code: 2\nwarn\n{}", expected));
        }
        other => panic!("unexpected {:?}", other),
    }
}

#[test]
fn graphroot_rejects_invalid_utf8() {
    assert!(matches!(
        graphroot_from_output(Some(0), &[0xff], b"{}"),
        Err(GraphRootError::InvalidUtf8(_))
    ));
    assert!(matches!(
        graphroot_from_output(Some(0), b"", &[0xff]),
        Err(GraphRootError::InvalidUtf8(_))
    ));
}

#[test]
fn try_graphroot_without_storage_root() {
    assert!(try_graphroot_from_output(Some(0), b"", br#"{"store":{}}"#).is_none());
    assert!(try_graphroot_from_output(Some(0), b"", br#"{"store":{"GraphRoot":7}}"#).is_none());
    assert!(try_graphroot_from_output(Some(0), b"", br#"[1,2]"#).is_none());
}

#[test]
fn try_graphroot_with_storage_root_or_errors() {
    let ok = try_graphroot_from_output(Some(0), b"", br#"{"store":{"GraphRoot":"/g"}}"#);
    assert_eq!(ok.unwrap().unwrap(), "/g");
    let bad = try_graphroot_from_output(Some(1), b"", b"");
    assert!(matches!(bad, Some(Err(GraphRootError::Report(_)))));
    let invalid = try_graphroot_from_output(Some(0), &[0xff], br#"{"store":{}}"#);
    assert!(matches!(invalid, Some(Err(GraphRootError::InvalidUtf8(_)))));
}

#[test]
fn wa_new_keeps_paths() {
    let wa = WA::new(
        PathBuf::from("/srv/containers"),
        PathBuf::from("/var/lib/containers/storage"),
        PathBuf::from("/var/lib/containers/jitregistry-cache"),
    );
    let copy = wa.clone();
    assert_eq!(copy.con_dir_path, PathBuf::from("/srv/containers"));
    assert_eq!(copy.buildah_dir, PathBuf::from("/var/lib/containers/storage"));
    assert_eq!(copy.oci_cache_dir, PathBuf::from("/var/lib/containers/jitregistry-cache"));
}

#[test]
fn lookup_command_is_one_shell_line() {
    assert_eq!(lookup_command(), "command -v buildah");
}

#[test]
fn default_cache_dir_next_to_storage_root() {
    assert_eq!(
        default_cache_dir("/var/lib/containers/storage"),
        "/var/lib/containers/jitregistry-cache"
    );
    assert_eq!(default_cache_dir("/home/u/.local/share/containers/storage/"), "/home/u/.local/share/containers/jitregistry-cache");
    assert_eq!(default_cache_dir("/"), "/jitregistry-cache");
    assert_eq!(default_cache_dir("storage"), "jitregistry-cache");
    assert_eq!(default_cache_dir(""), "jitregistry-cache");
}

#[test]
fn entry_targets() {
    let dir = PathBuf::from("/srv/containers/web");
    let script = PathBuf::from("/srv/containers/web/build.sh");
    assert_eq!(
        entry_target(EntryAction::Script, script.clone(), dir.clone()),
        Some((Some(script.clone()), None))
    );
    assert_eq!(
        entry_target(EntryAction::Containerfile, script.clone(), dir.clone()),
        Some((None, Some(dir.clone())))
    );
    assert_eq!(entry_target(EntryAction::Skip, script, dir), None);
}

#[test]
fn no_build_directory_message() {
    assert_eq!(
        no_build_directory("\"/srv/containers\""),
        "Cannot find a subdirectory for path: \"/srv/containers\""
    );
}
