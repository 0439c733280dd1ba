use jitregistry::digest::sha256_digest;
use jitregistry::registry::{blob_path, index_path, layout_dir, oci_push_target};
use jitregistry::registry::{
    blob_hex, cached_manifest, export_accepts, export_step, detect_manifest_content_type, export_failure,
    get_blob, get_manifest, head_blob, head_manifest, index_manifest_hex, manifest_source,
    manifest_with_digest, oci_error, unsupported, v2_base, ExportAction, ExportEvent, ExportFailure,
    ExportState, ManifestSource, Reply,
    ReplyBody,
};

const OCI_MANIFEST: &str = "application/vnd.oci.image.manifest.v1+json";
const OCI_INDEX: &str = "application/vnd.oci.image.index.v1+json";
const DOCKER_MANIFEST: &str = "application/vnd.docker.distribution.manifest.v2+json";

fn headers(r: &Reply) -> Vec<(&str, &str)> {
    r.headers.iter().map(|(a, b)| (a.as_str(), b.as_str())).collect()
}

fn text_body(r: &Reply) -> &str {
    match &r.body {
        ReplyBody::Text(t) => t.as_str(),
        other => panic!("not a text body: {:?}", other),
    }
}

fn assert_oci_error(r: &Reply, status: u16, code: &str, message: &str) {
    assert_eq!(r.status, status);
    assert_eq!(headers(r), vec![("Content-Type", "application/json")]);
    let expected = format!(
        "{{\"errors\":[{{\"code\":{},\"message\":{}}}]}}",
        serde_json::to_string(code).unwrap(),
        serde_json::to_string(message).unwrap()
    );
    assert_eq!(text_body(r), expected);
}

#[test]
fn oci_error_body_and_headers() {
    let r = oci_error(404, "NAME_UNKNOWN", "repository name not known to registry");
    assert_eq!(r.status, 404);
    assert_eq!(headers(&r), vec![("Content-Type", "application/json")]);
    assert_eq!(
        text_body(&r),
        r#"{"errors":[{"code":"NAME_UNKNOWN","message":"repository name not known to registry"}]}"#
    );
}

#[test]
fn oci_error_escapes_message() {
    let r = oci_error(500, "MANIFEST_UNKNOWN", "say \"hi\"\\\n\t\u{1}\u{7f}\u{e9}");
    assert_eq!(
        text_body(&r),
        "{\"errors\":[{\"code\":\"MANIFEST_UNKNOWN\",\"message\":\"say \\\"hi\\\"\\\\\\n\\t\\u0001\u{7f}\u{e9}\"}]}"
    );
    let parsed: serde_json::Value = serde_json::from_str(text_body(&r)).unwrap();
    assert_eq!(parsed["errors"][0]["message"], "say \"hi\"\\\n\t\u{1}\u{7f}\u{e9}");
}

#[test]
fn v2_base_reply() {
    let r = v2_base();
    assert_eq!(r.status, 200);
    assert_eq!(
        headers(&r),
        vec![
            ("Docker-Distribution-API-Version", "registry/2.0"),
            ("Content-Type", "application/json")
        ]
    );
    assert_eq!(text_body(&r), "{}");
}

#[test]
fn unsupported_reply() {
    assert_oci_error(&unsupported(), 405, "UNSUPPORTED", "this registry is read-only");
}

#[test]
fn content_type_docker() {
    let m = br#"{"schemaVersion":2,"mediaType":"application/vnd.docker.distribution.manifest.v2+json"}"#;
    assert_eq!(detect_manifest_content_type(m), DOCKER_MANIFEST);
}

#[test]
fn content_type_index() {
    let m = br#"{"mediaType":"application/vnd.oci.image.index.v1+json","manifests":[]}"#;
    assert_eq!(detect_manifest_content_type(m), OCI_INDEX);
}

#[test]
fn content_type_defaults_to_oci_manifest() {
    assert_eq!(
        detect_manifest_content_type(br#"{"mediaType":"application/vnd.oci.image.manifest.v1+json"}"#),
        OCI_MANIFEST
    );
    assert_eq!(detect_manifest_content_type(br#"{"schemaVersion":2}"#), OCI_MANIFEST);
    assert_eq!(detect_manifest_content_type(br#"{"mediaType":7}"#), OCI_MANIFEST);
    assert_eq!(detect_manifest_content_type(br#"["docker"]"#), OCI_MANIFEST);
    assert_eq!(detect_manifest_content_type(b"not json"), OCI_MANIFEST);
    assert_eq!(detect_manifest_content_type(b""), OCI_MANIFEST);
    assert_eq!(detect_manifest_content_type(&[0xff, 0xfe]), OCI_MANIFEST);
}

#[test]
fn content_type_docker_wins_over_index() {
    let m = br#"{"mediaType":"docker+image.index"}"#;
    assert_eq!(detect_manifest_content_type(m), DOCKER_MANIFEST);
}

#[test]
fn get_manifest_ok() {
    let bytes = br#"{"mediaType":"application/vnd.oci.image.index.v1+json"}"#.to_vec();
    let digest = sha256_digest(&bytes);
    let r = get_manifest(Ok((bytes.clone(), digest.clone())));
    assert_eq!(r.status, 200);
    assert_eq!(
        headers(&r),
        vec![
            ("Content-Type", OCI_INDEX),
            ("Docker-Content-Digest", digest.as_str()),
            ("Docker-Distribution-API-Version", "registry/2.0")
        ]
    );
    match &r.body {
        ReplyBody::Bytes(b) => assert_eq!(b, &bytes),
        other => panic!("unexpected {:?}", other),
    }
}

#[test]
fn head_manifest_ok() {
    let bytes = b"{}".to_vec();
    let r = head_manifest(Ok((bytes, "sha256:44136fa355b3678a1146ad16f7e8649e94fb4fc21fe77e8310c060f61caaff8a".to_string())));
    assert_eq!(r.status, 200);
    assert_eq!(
        headers(&r),
        vec![
            ("Content-Type", OCI_MANIFEST),
            ("Docker-Content-Digest", "sha256:44136fa355b3678a1146ad16f7e8649e94fb4fc21fe77e8310c060f61caaff8a"),
            ("Docker-Distribution-API-Version", "registry/2.0"),
            ("Content-Length", "2")
        ]
    );
    assert!(matches!(r.body, ReplyBody::Empty));
}

#[test]
fn head_manifest_matches_get_manifest() {
    let bytes = br#"{"mediaType":"application/vnd.docker.distribution.manifest.v2+json"}"#.to_vec();
    let digest = sha256_digest(&bytes);
    let g = get_manifest(Ok((bytes.clone(), digest.clone())));
    let h = head_manifest(Ok((bytes.clone(), digest)));
    assert_eq!(g.status, h.status);
    let mut expected = headers(&g);
    let len = bytes.len().to_string();
    expected.push(("Content-Length", len.as_str()));
    assert_eq!(headers(&h), expected);
}

#[test]
fn manifest_replies_pass_errors_through() {
    let g = get_manifest(Err(oci_error(404, "MANIFEST_UNKNOWN", "gone")));
    assert_oci_error(&g, 404, "MANIFEST_UNKNOWN", "gone");
    let h = head_manifest(Err(oci_error(400, "DIGEST_INVALID", "bad")));
    assert_oci_error(&h, 400, "DIGEST_INVALID", "bad");
}

#[test]
fn blob_hex_of_digest() {
    assert_eq!(blob_hex("sha256:abc").unwrap(), "abc");
    assert_eq!(blob_hex("sha256:").unwrap(), "");
    let err = blob_hex("md5:abc").unwrap_err();
    assert_oci_error(&err, 400, "DIGEST_INVALID", "invalid digest format");
}

#[test]
fn get_blob_replies() {
    let r = get_blob("sha256:ab", Some(vec![1, 2, 3]));
    assert_eq!(r.status, 200);
    assert_eq!(
        headers(&r),
        vec![
            ("Content-Type", "application/octet-stream"),
            ("Docker-Content-Digest", "sha256:ab"),
            ("Content-Length", "3")
        ]
    );
    match &r.body {
        ReplyBody::Bytes(b) => assert_eq!(b, &vec![1, 2, 3]),
        other => panic!("unexpected {:?}", other),
    }
    assert_oci_error(&get_blob("sha256:ab", None), 404, "BLOB_UNKNOWN", "blob unknown to registry");
}

#[test]
fn head_blob_replies() {
    let r = head_blob("sha256:ab", Some(1234567));
    assert_eq!(r.status, 200);
    assert_eq!(
        headers(&r),
        vec![
            ("Content-Type", "application/octet-stream"),
            ("Docker-Content-Digest", "sha256:ab"),
            ("Content-Length", "1234567")
        ]
    );
    assert!(matches!(r.body, ReplyBody::Empty));
    assert_oci_error(&head_blob("sha256:ab", None), 404, "BLOB_UNKNOWN", "blob unknown to registry");
}

#[test]
fn head_blob_matches_get_blob() {
    let bytes = vec![7u8; 300];
    let g = get_blob("sha256:cd", Some(bytes.clone()));
    let h = head_blob("sha256:cd", Some(bytes.len() as u64));
    assert_eq!(g.status, h.status);
    assert_eq!(headers(&g), headers(&h));
}

#[test]
fn manifest_source_by_reference() {
    match manifest_source("sha256:00ff") {
        ManifestSource::Cached(h) => assert_eq!(h, "00ff"),
        other => panic!("unexpected {:?}", other),
    }
    assert!(matches!(manifest_source("latest"), ManifestSource::Build));
    assert!(matches!(manifest_source("sha256:"), ManifestSource::Build));
    assert!(matches!(manifest_source("sha256:zz"), ManifestSource::Build));
}

#[test]
fn cached_manifest_replies() {
    let (b, d) = cached_manifest(Some(b"abc".to_vec())).unwrap();
    assert_eq!(b, b"abc".to_vec());
    assert_eq!(d, "sha256:ba7816bf8f01cfea414140de5dae2223b00361a396177a9cb410ff61f20015ad");
    let err = cached_manifest(None).unwrap_err();
    assert_oci_error(&err, 404, "MANIFEST_UNKNOWN", "manifest unknown to registry");
}

#[test]
fn manifest_with_digest_pairs() {
    let (b, d) = manifest_with_digest(b"".to_vec());
    assert!(b.is_empty());
    assert_eq!(d, "sha256:e3b0c44298fc1c149afbf4c8996fb92427ae41e4649b934ca495991b7852b855");
}

#[test]
fn export_failure_replies() {
    assert_oci_error(
        &export_failure(&ExportFailure::UnknownName),
        404,
        "NAME_UNKNOWN",
        "repository name not known to registry",
    );
    assert_oci_error(
        &export_failure(&ExportFailure::Step("buildah error".to_string())),
        500,
        "MANIFEST_UNKNOWN",
        "buildah error",
    );
    assert_oci_error(
        &export_failure(&ExportFailure::NothingBuilt),
        404,
        "MANIFEST_UNKNOWN",
        "no buildable content found",
    );
    assert_oci_error(
        &export_failure(&ExportFailure::BadIndexDigest),
        500,
        "MANIFEST_UNKNOWN",
        "invalid digest in index.json",
    );
}

/// Runs the export steps on scripted outcomes; returns the actions taken.
fn run_export(located: Option<(bool, bool)>, builds: Vec<Result<&str, &str>>, export: Result<(), &str>,
    index: Result<&str, &str>, manifest: Result<Vec<u8>, &str>) -> (Vec<String>, Result<(Vec<u8>, String), Reply>) {
    let mut builds = builds.into_iter();
    let mut event = match located {
        Some((script, containerfile)) => ExportEvent::Located { script, containerfile },
        None => ExportEvent::LocateFailed,
    };
    let mut state = ExportState::Start;
    let mut log = Vec::new();
    loop {
        assert!(export_accepts(&state, &event));
        let (next, action) = export_step(state, event);
        state = next;
        log.push(match &action {
            ExportAction::BuildScript => "script".to_string(),
            ExportAction::BuildContainerfile => "containerfile".to_string(),
            ExportAction::Export(i) => format!("export {}", i),
            ExportAction::ReadIndex => "index".to_string(),
            ExportAction::ReadManifest(h) => format!("manifest {}", h),
            ExportAction::Finish(_) => "finish".to_string(),
        });
        event = match action {
            ExportAction::BuildScript | ExportAction::BuildContainerfile => ExportEvent::Built(
                builds.next().unwrap().map(|s| s.to_string()).map_err(|s| s.to_string()),
            ),
            ExportAction::Export(_) => ExportEvent::Exported(export.clone().map_err(|s| s.to_string())),
            ExportAction::ReadIndex => {
                ExportEvent::IndexRead(index.map(|s| s.to_string()).map_err(|s| s.to_string()))
            }
            ExportAction::ReadManifest(_) => {
                ExportEvent::ManifestRead(manifest.clone().map_err(|s| s.to_string()))
            }
            ExportAction::Finish(result) => {
                assert!(matches!(state, ExportState::Done));
                return (log, result);
            }
        };
    }
}

#[test]
fn export_script_then_containerfile() {
    let (log, result) = run_export(Some((true, true)), vec![Ok("img-s"), Ok("img-f")], Ok(()),
        Ok("sha256:abcd"), Ok(b"abc".to_vec()));
    assert_eq!(log, vec!["script", "containerfile", "export img-f", "index", "manifest abcd", "finish"]);
    let (bytes, digest) = result.unwrap();
    assert_eq!(bytes, b"abc".to_vec());
    assert_eq!(digest, "sha256:ba7816bf8f01cfea414140de5dae2223b00361a396177a9cb410ff61f20015ad");
}

#[test]
fn export_script_only() {
    let (log, result) = run_export(Some((true, false)), vec![Ok("img-s")], Ok(()), Ok("sha256:00"), Ok(vec![]));
    assert_eq!(log, vec!["script", "export img-s", "index", "manifest 00", "finish"]);
    assert!(result.is_ok());
}

#[test]
fn export_unknown_name() {
    let (log, result) = run_export(None, vec![], Ok(()), Ok("sha256:00"), Ok(vec![]));
    assert_eq!(log, vec!["finish"]);
    assert_oci_error(&result.unwrap_err(), 404, "NAME_UNKNOWN", "repository name not known to registry");
}

#[test]
fn export_nothing_located_or_built() {
    let (_, result) = run_export(Some((false, false)), vec![], Ok(()), Ok("sha256:00"), Ok(vec![]));
    assert_oci_error(&result.unwrap_err(), 404, "MANIFEST_UNKNOWN", "no buildable content found");
    let (log, result) = run_export(Some((false, true)), vec![Ok("")], Ok(()), Ok("sha256:00"), Ok(vec![]));
    assert_eq!(log, vec!["containerfile", "finish"]);
    assert_oci_error(&result.unwrap_err(), 404, "MANIFEST_UNKNOWN", "no buildable content found");
    let (log, result) = run_export(Some((true, true)), vec![Ok("img-s"), Ok("")], Ok(()), Ok("sha256:00"), Ok(vec![]));
    assert_eq!(log, vec!["script", "containerfile", "finish"]);
    assert_oci_error(&result.unwrap_err(), 404, "MANIFEST_UNKNOWN", "no buildable content found");
}

#[test]
fn export_failed_step_stops() {
    let (log, result) = run_export(Some((true, true)), vec![Err("buildah error")], Ok(()), Ok("sha256:00"), Ok(vec![]));
    assert_eq!(log, vec!["script", "finish"]);
    assert_oci_error(&result.unwrap_err(), 500, "MANIFEST_UNKNOWN", "buildah error");
    let (log, result) = run_export(Some((false, true)), vec![Ok("i")], Err("push failed"), Ok("sha256:00"), Ok(vec![]));
    assert_eq!(log, vec!["containerfile", "export i", "finish"]);
    assert_oci_error(&result.unwrap_err(), 500, "MANIFEST_UNKNOWN", "push failed");
    let (log, result) = run_export(Some((false, true)), vec![Ok("i")], Ok(()), Err("no index"), Ok(vec![]));
    assert_eq!(log, vec!["containerfile", "export i", "index", "finish"]);
    assert_oci_error(&result.unwrap_err(), 500, "MANIFEST_UNKNOWN", "no index");
    let (_, result) = run_export(Some((false, true)), vec![Ok("i")], Ok(()), Ok("md5:00"), Ok(vec![]));
    assert_oci_error(&result.unwrap_err(), 500, "MANIFEST_UNKNOWN", "invalid digest in index.json");
    let (log, result) = run_export(Some((false, true)), vec![Ok("i")], Ok(()), Ok("sha256:ab"), Err("gone"));
    assert_eq!(log, vec!["containerfile", "export i", "index", "manifest ab", "finish"]);
    assert_oci_error(&result.unwrap_err(), 500, "MANIFEST_UNKNOWN", "gone");
}

#[test]
fn export_rejects_out_of_order_events() {
    assert!(!export_accepts(&ExportState::Start, &ExportEvent::Exported(Ok(()))));
    assert!(!export_accepts(&ExportState::Done, &ExportEvent::LocateFailed));
    assert!(export_accepts(&ExportState::FileBuilding, &ExportEvent::Built(Ok("x".to_string()))));
}

#[test]
fn index_manifest_hex_of_digest() {
    assert_eq!(index_manifest_hex("sha256:abcd").unwrap(), "abcd");
    assert!(matches!(index_manifest_hex("abcd"), Err(ExportFailure::BadIndexDigest)));
}

#[test]
fn oci_layout_paths() {
    assert_eq!(layout_dir("/var/cache", "team/app"), "/var/cache/team/app");
    assert_eq!(index_path("/var/cache", "app"), "/var/cache/app/index.json");
    assert_eq!(blob_path("/var/cache", "app", "abcd"), "/var/cache/app/blobs/sha256/abcd");
    assert_eq!(oci_push_target("/var/cache", "app"), "oci:/var/cache/app");
}
