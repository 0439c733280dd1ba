//! The registry's answers: OCI error replies, the pull endpoints' replies,
//! and the decisions taken between the steps that read files or run builds.
use vstd::prelude::*;
use vstd::string::StringExecFns;

use crate::digest::{
    digest_hex, digest_hex_of, digest_text, is_digest_ref, is_digest_reference,
    lemma_digest_text_is_reference, lemma_reference_has_hex, sha256_digest, sha256_of,
};
use crate::json::{json_from_slice, json_of_bytes, json_pointer_str, json_quoted, json_string_literal};
use crate::text::{chars_of, contains_chars, decimal, decimal_string, occurs_in};

verus! {

/// The body of a reply.
#[derive(Debug)]
pub enum ReplyBody {
    /// No body (`finish`).
    Empty,
    /// A text body.
    Text(String),
    /// A byte body.
    Bytes(Vec<u8>),
}

/// A reply body as plain values.
pub enum BodyView {
    Empty,
    Text(Seq<char>),
    Bytes(Seq<u8>),
}

/// An HTTP reply: status code, headers in order, and body.
#[derive(Debug)]
pub struct Reply {
    pub status: u16,
    pub headers: Vec<(String, String)>,
    pub body: ReplyBody,
}

/// A reply as plain values.
pub struct ReplyView {
    pub status: u16,
    pub headers: Seq<(Seq<char>, Seq<char>)>,
    pub body: BodyView,
}

/// The headers as pairs of texts.
pub open spec fn headers_view(h: Seq<(String, String)>) -> Seq<(Seq<char>, Seq<char>)> {
    h.map_values(|p: (String, String)| (p.0@, p.1@))
}

impl View for ReplyBody {
    type V = BodyView;

    open spec fn view(&self) -> BodyView {
        match self {
            ReplyBody::Empty => BodyView::Empty,
            ReplyBody::Text(s) => BodyView::Text(s@),
            ReplyBody::Bytes(b) => BodyView::Bytes(b@),
        }
    }
}

impl View for Reply {
    type V = ReplyView;

    open spec fn view(&self) -> ReplyView {
        ReplyView { status: self.status, headers: headers_view(self.headers@), body: self.body@ }
    }
}

/// A header built from two texts.
fn header(name: &str, value: &str) -> (h: (String, String))
    ensures
        h.0@ == name@,
        h.1@ == value@,
{
    (String::from_str(name), String::from_str(value))
}

/// The JSON body of an OCI error: `{"errors":[{"code":..,"message":..}]}`.
pub open spec fn oci_error_body(code: Seq<char>, message: Seq<char>) -> Seq<char> {
    "{\"errors\":[{\"code\":"@ + json_quoted(code) + ",\"message\":"@ + json_quoted(message)
        + "}]}"@
}

/// The OCI error reply with the given status, error code and message.
pub open spec fn oci_error_reply(status: u16, code: Seq<char>, message: Seq<char>) -> ReplyView {
    ReplyView {
        status,
        headers: seq![("Content-Type"@, "application/json"@)],
        body: BodyView::Text(oci_error_body(code, message)),
    }
}

/// Returns an OCI-formatted error response: the status, a JSON content type,
/// and the body `{"errors":[{"code":code,"message":message}]}`.
pub fn oci_error(status: u16, code: &str, message: &str) -> (r: Reply)
    ensures
        r@ == oci_error_reply(status, code@, message@),
{
    let code_lit = json_string_literal(code).unwrap();
    let message_lit = json_string_literal(message).unwrap();
    let mut body = String::from_str("{\"errors\":[{\"code\":");
    body.append(code_lit.as_str());
    body.append(",\"message\":");
    body.append(message_lit.as_str());
    body.append("}]}");
    let mut headers: Vec<(String, String)> = Vec::new();
    headers.push(header("Content-Type", "application/json"));
    let r = Reply { status, headers, body: ReplyBody::Text(body) };
    assert(r@.headers =~= seq![("Content-Type"@, "application/json"@)]);
    assert(r@ == oci_error_reply(status, code@, message@));
    r
}

/// The reply to `GET /v2/`: the API version header and an empty JSON object.
pub fn v2_base() -> (r: Reply)
    ensures
        r@ == (ReplyView {
            status: 200,
            headers: seq![
                ("Docker-Distribution-API-Version"@, "registry/2.0"@),
                ("Content-Type"@, "application/json"@),
            ],
            body: BodyView::Text("{}"@),
        }),
{
    let mut headers: Vec<(String, String)> = Vec::new();
    headers.push(header("Docker-Distribution-API-Version", "registry/2.0"));
    headers.push(header("Content-Type", "application/json"));
    let r = Reply { status: 200, headers, body: ReplyBody::Text(String::from_str("{}")) };
    assert(r@.headers =~= seq![
        ("Docker-Distribution-API-Version"@, "registry/2.0"@),
        ("Content-Type"@, "application/json"@),
    ]);
    r
}

/// The reply to every write operation: 405 with the OCI `UNSUPPORTED` error.
pub fn unsupported() -> (r: Reply)
    ensures
        r@ == oci_error_reply(405, "UNSUPPORTED"@, "this registry is read-only"@),
{
    oci_error(405, "UNSUPPORTED", "this registry is read-only")
}

/// The content type of a manifest, read from its `mediaType` member: Docker
/// when that names `docker`, an OCI index when it names `image.index`, and an
/// OCI image manifest otherwise (also when the bytes are not JSON or the
/// member is absent or not a string).
pub open spec fn manifest_content_type(bytes: Seq<u8>) -> Seq<char> {
    let media_type = "/mediaType"@;
    if json_of_bytes(bytes) is Some && json_of_bytes(bytes)->0.contains_key(media_type)
        && occurs_in(json_of_bytes(bytes)->0[media_type], "docker"@) {
        "application/vnd.docker.distribution.manifest.v2+json"@
    } else if json_of_bytes(bytes) is Some && json_of_bytes(bytes)->0.contains_key(media_type)
        && occurs_in(json_of_bytes(bytes)->0[media_type], "image.index"@) {
        "application/vnd.oci.image.index.v1+json"@
    } else {
        "application/vnd.oci.image.manifest.v1+json"@
    }
}

/// Reads the mediaType field from manifest JSON to determine Content-Type.
pub fn detect_manifest_content_type(bytes: &[u8]) -> (r: &'static str)
    ensures
        r@ == manifest_content_type(bytes@),
        json_of_bytes(bytes@) is Some && json_of_bytes(bytes@)->0.contains_key("/mediaType"@) && occurs_in(
            json_of_bytes(bytes@)->0["/mediaType"@],
            "docker"@,
        ) ==> r@ == "application/vnd.docker.distribution.manifest.v2+json"@,
        json_of_bytes(bytes@) is Some && json_of_bytes(bytes@)->0.contains_key("/mediaType"@) && !occurs_in(
            json_of_bytes(bytes@)->0["/mediaType"@],
            "docker"@,
        ) && occurs_in(json_of_bytes(bytes@)->0["/mediaType"@], "image.index"@) ==> r@ == "application/vnd.oci.image.index.v1+json"@,
        json_of_bytes(bytes@) is None || !json_of_bytes(bytes@)->0.contains_key("/mediaType"@) || (!occurs_in(
            json_of_bytes(bytes@)->0["/mediaType"@],
            "docker"@,
        ) && !occurs_in(json_of_bytes(bytes@)->0["/mediaType"@], "image.index"@)) ==> r@ == "application/vnd.oci.image.manifest.v1+json"@,
{
    if let Ok(v) = json_from_slice(bytes) {
        if let Some(mt) = json_pointer_str(&v, "/mediaType") {
            let mt_chars = chars_of(mt);
            if contains_chars(&mt_chars, &chars_of("docker")) {
                return "application/vnd.docker.distribution.manifest.v2+json";
            }
            if contains_chars(&mt_chars, &chars_of("image.index")) {
                return "application/vnd.oci.image.index.v1+json";
            }
        }
    }
    "application/vnd.oci.image.manifest.v1+json"
}

/// The headers of a manifest reply: content type, digest and API version.
pub open spec fn manifest_headers(bytes: Seq<u8>, digest: Seq<char>) -> Seq<(Seq<char>, Seq<char>)> {
    seq![
        ("Content-Type"@, manifest_content_type(bytes)),
        ("Docker-Content-Digest"@, digest),
        ("Docker-Distribution-API-Version"@, "registry/2.0"@),
    ]
}

/// The reply that `GET` gives for a resolved manifest.
pub open spec fn manifest_get_reply(bytes: Seq<u8>, digest: Seq<char>) -> ReplyView {
    ReplyView { status: 200, headers: manifest_headers(bytes, digest), body: BodyView::Bytes(bytes) }
}

/// The reply that `HEAD` gives for a resolved manifest.
pub open spec fn manifest_head_reply(bytes: Seq<u8>, digest: Seq<char>) -> ReplyView {
    ReplyView {
        status: 200,
        headers: manifest_headers(bytes, digest).push(("Content-Length"@, decimal(bytes.len()))),
        body: BodyView::Empty,
    }
}

/// The manifest headers of a reply.
fn manifest_header_vec(bytes: &[u8], digest: &str) -> (h: Vec<(String, String)>)
    ensures
        headers_view(h@) == manifest_headers(bytes@, digest@),
{
    let mut h: Vec<(String, String)> = Vec::new();
    h.push(header("Content-Type", detect_manifest_content_type(bytes)));
    h.push(header("Docker-Content-Digest", digest));
    h.push(header("Docker-Distribution-API-Version", "registry/2.0"));
    assert(headers_view(h@) =~= manifest_headers(bytes@, digest@));
    h
}

/// The reply to `GET /v2/{name}/manifests/{reference}` once the manifest is
/// resolved: the manifest with its headers, or the error reply.
pub fn get_manifest(resolved: Result<(Vec<u8>, String), Reply>) -> (r: Reply)
    ensures
        resolved matches Err(e) ==> r@ == e@,
        resolved matches Ok((bytes, digest)) ==> r@ == manifest_get_reply(bytes@, digest@),
        resolved matches Ok((bytes, digest)) ==> r@.status == 200 && r@.headers.len() == 3
            && r@.headers[0] == ("Content-Type"@, manifest_content_type(bytes@)) && r@.headers[1] == (
            "Docker-Content-Digest"@,
            digest@,
        ) && r@.headers[2] == ("Docker-Distribution-API-Version"@, "registry/2.0"@) && r@.body
            == BodyView::Bytes(bytes@),
{
    match resolved {
        Ok((bytes, digest)) => {
            let headers = manifest_header_vec(bytes.as_slice(), digest.as_str());
            Reply { status: 200, headers, body: ReplyBody::Bytes(bytes) }
        },
        Err(resp) => resp,
    }
}

/// The reply to `HEAD /v2/{name}/manifests/{reference}` once the manifest is
/// resolved: the headers and the manifest's length, no body; or the error reply.
pub fn head_manifest(resolved: Result<(Vec<u8>, String), Reply>) -> (r: Reply)
    ensures
        resolved matches Err(e) ==> r@ == e@,
        resolved matches Ok((bytes, digest)) ==> r@ == manifest_head_reply(bytes@, digest@),
        resolved matches Ok((bytes, digest)) ==> r@.status == 200 && r@.headers.len() == 4
            && r@.headers[1] == ("Docker-Content-Digest"@, digest@) && r@.headers[3] == (
            "Content-Length"@,
            decimal(bytes@.len()),
        ) && r@.body == BodyView::Empty,
{
    match resolved {
        Ok((bytes, digest)) => {
            let mut headers = manifest_header_vec(bytes.as_slice(), digest.as_str());
            let len = decimal_string(bytes.len() as u64);
            headers.push((String::from_str("Content-Length"), len));
            let r = Reply { status: 200, headers, body: ReplyBody::Empty };
            assert(r@.headers =~= manifest_headers(bytes@, digest@).push(
                ("Content-Length"@, decimal(bytes@.len())),
            ));
            r
        },
        Err(resp) => resp,
    }
}

/// The error reply for a malformed digest.
pub open spec fn digest_invalid_reply() -> ReplyView {
    oci_error_reply(400, "DIGEST_INVALID"@, "invalid digest format"@)
}

/// The error reply for a blob that is not in the cache.
pub open spec fn blob_unknown_reply() -> ReplyView {
    oci_error_reply(404, "BLOB_UNKNOWN"@, "blob unknown to registry"@)
}

/// The first step of a blob request: the hex part of the digest, which names
/// the blob file, or the `DIGEST_INVALID` reply when the digest lacks the
/// `sha256:` prefix.
pub fn blob_hex(digest: &str) -> (r: Result<String, Reply>)
    ensures
        digest_hex_of(digest@) matches Some(h) ==> (r matches Ok(s) && s@ == h),
        digest_hex_of(digest@) is None ==> (r matches Err(e) && e@ == digest_invalid_reply()),
{
    match digest_hex(digest) {
        Some(h) => Ok(h.to_owned()),
        None => Err(oci_error(400, "DIGEST_INVALID", "invalid digest format")),
    }
}

/// The headers of a blob reply.
pub open spec fn blob_headers(digest: Seq<char>, len: nat) -> Seq<(Seq<char>, Seq<char>)> {
    seq![
        ("Content-Type"@, "application/octet-stream"@),
        ("Docker-Content-Digest"@, digest),
        ("Content-Length"@, decimal(len)),
    ]
}

/// The reply that `GET` gives for a blob that was read.
pub open spec fn blob_get_reply(digest: Seq<char>, bytes: Seq<u8>) -> ReplyView {
    ReplyView {
        status: 200,
        headers: blob_headers(digest, bytes.len()),
        body: BodyView::Bytes(bytes),
    }
}

/// The reply that `HEAD` gives for a blob of `size` bytes.
pub open spec fn blob_head_reply(digest: Seq<char>, size: nat) -> ReplyView {
    ReplyView { status: 200, headers: blob_headers(digest, size), body: BodyView::Empty }
}

/// The blob headers of a reply.
fn blob_header_vec(digest: &str, len: u64) -> (h: Vec<(String, String)>)
    ensures
        headers_view(h@) == blob_headers(digest@, len as nat),
{
    let mut h: Vec<(String, String)> = Vec::new();
    h.push(header("Content-Type", "application/octet-stream"));
    h.push(header("Docker-Content-Digest", digest));
    h.push((String::from_str("Content-Length"), decimal_string(len)));
    assert(headers_view(h@) =~= blob_headers(digest@, len as nat));
    h
}

/// The reply to `GET /v2/{name}/blobs/{digest}` for a digest that passed
/// [`blob_hex`], once the blob file was read (`Some` with its bytes) or could
/// not be (`None`).
pub fn get_blob(digest: &str, read: Option<Vec<u8>>) -> (r: Reply)
    requires
        digest_hex_of(digest@) is Some,
    ensures
        read is None ==> r@ == blob_unknown_reply(),
        read matches Some(bytes) ==> r@ == blob_get_reply(digest@, bytes@),
        read matches Some(bytes) ==> r@.status == 200 && r@.headers == seq![
            ("Content-Type"@, "application/octet-stream"@),
            ("Docker-Content-Digest"@, digest@),
            ("Content-Length"@, decimal(bytes@.len())),
        ] && r@.body == BodyView::Bytes(bytes@),
{
    match read {
        Some(bytes) => {
            let headers = blob_header_vec(digest, bytes.len() as u64);
            Reply { status: 200, headers, body: ReplyBody::Bytes(bytes) }
        },
        None => oci_error(404, "BLOB_UNKNOWN", "blob unknown to registry"),
    }
}

/// The reply to `HEAD /v2/{name}/blobs/{digest}` for a digest that passed
/// [`blob_hex`], once the blob file's size was found (`Some`) or the file was
/// not (`None`).
pub fn head_blob(digest: &str, size: Option<u64>) -> (r: Reply)
    requires
        digest_hex_of(digest@) is Some,
    ensures
        size is None ==> r@ == blob_unknown_reply(),
        size matches Some(n) ==> r@ == blob_head_reply(digest@, n as nat),
        size matches Some(n) ==> r@.status == 200 && r@.headers == seq![
            ("Content-Type"@, "application/octet-stream"@),
            ("Docker-Content-Digest"@, digest@),
            ("Content-Length"@, decimal(n as nat)),
        ] && r@.body == BodyView::Empty,
{
    match size {
        Some(n) => Reply { status: 200, headers: blob_header_vec(digest, n), body: ReplyBody::Empty },
        None => oci_error(404, "BLOB_UNKNOWN", "blob unknown to registry"),
    }
}

/// `HEAD` on a manifest answers what `GET` answers, without the body and
/// with the body's length: same status, the same headers in the same order,
/// then `Content-Length`.
pub proof fn lemma_head_manifest_matches_get(bytes: Seq<u8>, digest: Seq<char>)
    ensures
        manifest_head_reply(bytes, digest).status == manifest_get_reply(bytes, digest).status,
        manifest_head_reply(bytes, digest).headers == manifest_get_reply(bytes, digest).headers.push(
            ("Content-Length"@, decimal(bytes.len())),
        ),
        manifest_head_reply(bytes, digest).body == BodyView::Empty,
{
}

/// Every blob reply tells the blob's size: for every digest and size `n`,
/// `HEAD` answers 200 with the octet-stream type, the digest, and
/// `Content-Length: n` in decimal, and `GET` on bytes of length `n` does the same
/// with the bytes as its body.
pub proof fn lemma_blob_replies_carry_length(digest: Seq<char>, n: nat, bytes: Seq<u8>)
    ensures
        blob_head_reply(digest, n).status == 200,
        blob_head_reply(digest, n).headers == seq![
            ("Content-Type"@, "application/octet-stream"@),
            ("Docker-Content-Digest"@, digest),
            ("Content-Length"@, decimal(n)),
        ],
        blob_get_reply(digest, bytes).status == 200,
        blob_get_reply(digest, bytes).headers == seq![
            ("Content-Type"@, "application/octet-stream"@),
            ("Docker-Content-Digest"@, digest),
            ("Content-Length"@, decimal(bytes.len())),
        ],
        blob_get_reply(digest, bytes).body == BodyView::Bytes(bytes),
{
}

/// `HEAD` on a blob whose size is the length of the bytes that `GET` reads
/// answers with exactly `GET`'s status and headers, and no body.
pub proof fn lemma_head_blob_matches_get(digest: Seq<char>, bytes: Seq<u8>)
    ensures
        blob_head_reply(digest, bytes.len()).status == blob_get_reply(digest, bytes).status,
        blob_head_reply(digest, bytes.len()).headers == blob_get_reply(digest, bytes).headers,
        blob_head_reply(digest, bytes.len()).body == BodyView::Empty,
{
}

/// A served manifest carries its own digest: for the bytes of a manifest and
/// the digest text of any (non-empty) hash of them, such as the SHA-256 that
/// [`manifest_with_digest`] computes, the `GET` reply has those bytes as its
/// body and that digest, a digest reference, as `Docker-Content-Digest`.
pub proof fn lemma_served_manifest_names_its_digest(bytes: Seq<u8>, hash: Seq<u8>)
    requires
        hash.len() > 0,
    ensures
        manifest_get_reply(bytes, digest_text(hash)).body == BodyView::Bytes(bytes),
        manifest_get_reply(bytes, digest_text(hash)).headers[1] == (
            "Docker-Content-Digest"@,
            digest_text(hash),
        ),
        is_digest_ref(digest_text(hash)),
{
    lemma_digest_text_is_reference(hash);
}

/// How the content type follows the manifest's `mediaType`, whatever the
/// manifest's size: a `mediaType` naming `docker` gives the Docker v2
/// manifest type; one naming `image.index` but not `docker` gives the OCI
/// index type; anything else, including bytes that are not JSON and a missing
/// or non-string `mediaType`, gives the OCI image manifest type.
pub proof fn lemma_content_type_follows_media_type(b: Seq<u8>)
    ensures
        json_of_bytes(b) is Some && json_of_bytes(b)->0.contains_key("/mediaType"@) && occurs_in(
            json_of_bytes(b)->0["/mediaType"@],
            "docker"@,
        ) ==> manifest_content_type(b) == "application/vnd.docker.distribution.manifest.v2+json"@,
        json_of_bytes(b) is Some && json_of_bytes(b)->0.contains_key("/mediaType"@) && !occurs_in(
            json_of_bytes(b)->0["/mediaType"@],
            "docker"@,
        ) && occurs_in(json_of_bytes(b)->0["/mediaType"@], "image.index"@) ==> manifest_content_type(b) == "application/vnd.oci.image.index.v1+json"@,
        json_of_bytes(b) is None || !json_of_bytes(b)->0.contains_key("/mediaType"@) || (!occurs_in(
            json_of_bytes(b)->0["/mediaType"@],
            "docker"@,
        ) && !occurs_in(json_of_bytes(b)->0["/mediaType"@], "image.index"@)) ==> manifest_content_type(b) == "application/vnd.oci.image.manifest.v1+json"@,
{
}

/// A manifest is always served as one of three media types: a Docker v2
/// manifest, an OCI index, or an OCI image manifest.
pub proof fn lemma_content_type_is_known(bytes: Seq<u8>)
    ensures
        manifest_content_type(bytes) == "application/vnd.docker.distribution.manifest.v2+json"@
            || manifest_content_type(bytes) == "application/vnd.oci.image.index.v1+json"@
            || manifest_content_type(bytes) == "application/vnd.oci.image.manifest.v1+json"@,
{
}

/// Where a manifest request is served from.
#[derive(Debug)]
pub enum ManifestSource {
    /// From the cache, as the blob with this hex digest.
    Cached(String),
    /// From a fresh build of the repository (a tag reference).
    Build,
}

/// The first step of resolving a manifest: a digest reference is served from
/// the cache under its hex part, anything else (a tag) is built.
pub fn manifest_source(reference: &str) -> (r: ManifestSource)
    ensures
        is_digest_ref(reference@) ==> (r matches ManifestSource::Cached(h) && digest_hex_of(
            reference@,
        ) == Some(h@)),
        !is_digest_ref(reference@) ==> r is Build,
{
    if is_digest_reference(reference) {
        let h = digest_hex(reference);
        proof {
            lemma_reference_has_hex(reference@);
        }
        ManifestSource::Cached(h.unwrap().to_owned())
    } else {
        ManifestSource::Build
    }
}

/// A manifest's bytes together with their computed digest.
pub fn manifest_with_digest(bytes: Vec<u8>) -> (r: (Vec<u8>, String))
    ensures
        r.0@ == bytes@,
        r.1@ == digest_text(sha256_of(bytes@)),
        is_digest_ref(r.1@),
{
    let digest = sha256_digest(bytes.as_slice());
    (bytes, digest)
}

/// The error reply for a manifest that is not in the cache.
pub open spec fn manifest_unknown_reply() -> ReplyView {
    oci_error_reply(404, "MANIFEST_UNKNOWN"@, "manifest unknown to registry"@)
}

/// The end of a cached manifest lookup once the blob file was read (`Some`)
/// or could not be (`None`).
pub fn cached_manifest(read: Option<Vec<u8>>) -> (r: Result<(Vec<u8>, String), Reply>)
    ensures
        read is None ==> (r matches Err(e) && e@ == manifest_unknown_reply()),
        read matches Some(bytes) ==> (r matches Ok((b, d)) && b@ == bytes@ && d@ == digest_text(
            sha256_of(bytes@),
        )),
{
    match read {
        Some(bytes) => Ok(manifest_with_digest(bytes)),
        None => Err(oci_error(404, "MANIFEST_UNKNOWN", "manifest unknown to registry")),
    }
}

/// Why building and exporting an image failed.
#[derive(Debug)]
pub enum ExportFailure {
    /// No build directory for the repository name.
    UnknownName,
    /// A build, export or read step failed with this message.
    Step(String),
    /// No build ran, so there is no image.
    NothingBuilt,
    /// The OCI index names a digest without the `sha256:` prefix.
    BadIndexDigest,
}

/// The reply for each export failure.
pub open spec fn export_failure_reply(f: ExportFailure) -> ReplyView {
    match f {
        ExportFailure::UnknownName => oci_error_reply(
            404,
            "NAME_UNKNOWN"@,
            "repository name not known to registry"@,
        ),
        ExportFailure::Step(m) => oci_error_reply(500, "MANIFEST_UNKNOWN"@, m@),
        ExportFailure::NothingBuilt => oci_error_reply(
            404,
            "MANIFEST_UNKNOWN"@,
            "no buildable content found"@,
        ),
        ExportFailure::BadIndexDigest => oci_error_reply(
            500,
            "MANIFEST_UNKNOWN"@,
            "invalid digest in index.json"@,
        ),
    }
}

/// The OCI error reply for an export failure.
pub fn export_failure(f: &ExportFailure) -> (r: Reply)
    ensures
        r@ == export_failure_reply(*f),
{
    match f {
        ExportFailure::UnknownName => oci_error(
            404,
            "NAME_UNKNOWN",
            "repository name not known to registry",
        ),
        ExportFailure::Step(m) => oci_error(500, "MANIFEST_UNKNOWN", m.as_str()),
        ExportFailure::NothingBuilt => oci_error(404, "MANIFEST_UNKNOWN", "no buildable content found"),
        ExportFailure::BadIndexDigest => oci_error(
            500,
            "MANIFEST_UNKNOWN",
            "invalid digest in index.json",
        ),
    }
}

/// The hex digest of the exported manifest, from the digest that the OCI
/// index names; `BadIndexDigest` when it lacks the `sha256:` prefix.
pub fn index_manifest_hex(manifest_digest: &str) -> (r: Result<String, ExportFailure>)
    ensures
        digest_hex_of(manifest_digest@) matches Some(h) ==> (r matches Ok(s) && s@ == h),
        digest_hex_of(manifest_digest@) is None ==> (r matches Err(ExportFailure::BadIndexDigest)),
{
    match digest_hex(manifest_digest) {
        Some(h) => Ok(h.to_owned()),
        None => Err(ExportFailure::BadIndexDigest),
    }
}

/// Where building and exporting an image for a tag request stands.
#[derive(Debug)]
pub enum ExportState {
    /// Waiting for the build directory to be looked up.
    Start,
    /// The build script runs; `then_file` when a Containerfile build follows.
    ScriptBuilding { then_file: bool },
    /// The Containerfile build runs.
    FileBuilding,
    /// The built image is being exported to the OCI layout.
    Exporting,
    /// The OCI index is being read for the manifest's digest.
    ReadingIndex,
    /// The manifest blob is being read.
    ReadingManifest,
    /// Finished.
    Done,
}

/// The outcome of the last step that touched buildah or the file system.
#[derive(Debug)]
pub enum ExportEvent {
    /// The build directory was found, with a build script and/or a Containerfile.
    Located { script: bool, containerfile: bool },
    /// No build directory for the repository name.
    LocateFailed,
    /// A build finished: the image it names, or the error's message.
    Built(Result<String, String>),
    /// The export finished, or failed with this message.
    Exported(Result<(), String>),
    /// The OCI index named this manifest digest, or could not be read.
    IndexRead(Result<String, String>),
    /// The manifest blob was read, or could not be.
    ManifestRead(Result<Vec<u8>, String>),
}

/// What to do next.
#[derive(Debug)]
pub enum ExportAction {
    /// Run the build script.
    BuildScript,
    /// Run the Containerfile build.
    BuildContainerfile,
    /// Export this image to the repository's OCI layout.
    Export(String),
    /// Read the manifest digest from the OCI index.
    ReadIndex,
    /// Read the manifest blob with this hex digest.
    ReadManifest(String),
    /// Stop: the manifest and its digest, or the error reply.
    Finish(Result<(Vec<u8>, String), Reply>),
}

/// The event that each state waits for.
pub open spec fn export_expects(s: ExportState, e: ExportEvent) -> bool {
    match s {
        ExportState::Start => e is Located || e is LocateFailed,
        ExportState::ScriptBuilding { .. } => e is Built,
        ExportState::FileBuilding => e is Built,
        ExportState::Exporting => e is Exported,
        ExportState::ReadingIndex => e is IndexRead,
        ExportState::ReadingManifest => e is ManifestRead,
        ExportState::Done => false,
    }
}

/// Whether `state` waits for `event`.
pub fn export_accepts(state: &ExportState, event: &ExportEvent) -> (r: bool)
    ensures
        r == export_expects(*state, *event),
{
    match state {
        ExportState::Start => matches!(event, ExportEvent::Located { .. } | ExportEvent::LocateFailed),
        ExportState::ScriptBuilding { .. } => matches!(event, ExportEvent::Built(_)),
        ExportState::FileBuilding => matches!(event, ExportEvent::Built(_)),
        ExportState::Exporting => matches!(event, ExportEvent::Exported(_)),
        ExportState::ReadingIndex => matches!(event, ExportEvent::IndexRead(_)),
        ExportState::ReadingManifest => matches!(event, ExportEvent::ManifestRead(_)),
        ExportState::Done => false,
    }
}

/// The step stops with the reply for failure `f`.
pub open spec fn export_fails(r: (ExportState, ExportAction), f: ExportFailure) -> bool {
    &&& r.0 is Done
    &&& r.1 matches ExportAction::Finish(Err(rep)) && rep@ == export_failure_reply(f)
}

/// The event carries a failure of the step it reports.
pub open spec fn event_failed(e: ExportEvent) -> bool {
    match e {
        ExportEvent::LocateFailed => true,
        ExportEvent::Built(res) => res is Err,
        ExportEvent::Exported(res) => res is Err,
        ExportEvent::IndexRead(res) => res is Err,
        ExportEvent::ManifestRead(res) => res is Err,
        ExportEvent::Located { .. } => false,
    }
}

/// One step of building and exporting: the next state and action for the
/// event that the current state waits for.
pub open spec fn export_step_spec(s: ExportState, e: ExportEvent, r: (ExportState, ExportAction)) -> bool {
    match s {
        ExportState::Start => match e {
            ExportEvent::LocateFailed => export_fails(r, ExportFailure::UnknownName),
            ExportEvent::Located { script, containerfile } => if script {
                r.0 == (ExportState::ScriptBuilding { then_file: containerfile })
                    && r.1 is BuildScript
            } else if containerfile {
                r.0 is FileBuilding && r.1 is BuildContainerfile
            } else {
                export_fails(r, ExportFailure::NothingBuilt)
            },
            _ => false,
        },
        ExportState::ScriptBuilding { then_file } => match e {
            ExportEvent::Built(Err(m)) => export_fails(r, ExportFailure::Step(m)),
            ExportEvent::Built(Ok(h)) => if then_file {
                r.0 is FileBuilding && r.1 is BuildContainerfile
            } else if h@.len() == 0 {
                export_fails(r, ExportFailure::NothingBuilt)
            } else {
                r.0 is Exporting && (r.1 matches ExportAction::Export(x) && x@ == h@)
            },
            _ => false,
        },
        ExportState::FileBuilding => match e {
            ExportEvent::Built(Err(m)) => export_fails(r, ExportFailure::Step(m)),
            ExportEvent::Built(Ok(h)) => if h@.len() == 0 {
                export_fails(r, ExportFailure::NothingBuilt)
            } else {
                r.0 is Exporting && (r.1 matches ExportAction::Export(x) && x@ == h@)
            },
            _ => false,
        },
        ExportState::Exporting => match e {
            ExportEvent::Exported(Err(m)) => export_fails(r, ExportFailure::Step(m)),
            ExportEvent::Exported(Ok(_)) => r.0 is ReadingIndex && r.1 is ReadIndex,
            _ => false,
        },
        ExportState::ReadingIndex => match e {
            ExportEvent::IndexRead(Err(m)) => export_fails(r, ExportFailure::Step(m)),
            ExportEvent::IndexRead(Ok(d)) => match digest_hex_of(d@) {
                Some(h) => r.0 is ReadingManifest && (r.1 matches ExportAction::ReadManifest(x)
                    && x@ == h),
                None => export_fails(r, ExportFailure::BadIndexDigest),
            },
            _ => false,
        },
        ExportState::ReadingManifest => match e {
            ExportEvent::ManifestRead(Err(m)) => export_fails(r, ExportFailure::Step(m)),
            ExportEvent::ManifestRead(Ok(b)) => r.0 is Done && (r.1 matches ExportAction::Finish(
                Ok((b2, d)),
            ) && b2@ == b@ && d@ == digest_text(sha256_of(b@))),
            _ => false,
        },
        ExportState::Done => false,
    }
}

/// The stop with the reply for an export failure.
fn stop(f: ExportFailure) -> (r: (ExportState, ExportAction))
    ensures
        export_fails(r, f),
{
    let reply = export_failure(&f);
    (ExportState::Done, ExportAction::Finish(Err(reply)))
}

/// One step of building and exporting the image for a tag request: the
/// build script runs first, then the Containerfile build, whose image wins;
/// the image is exported only when a build named one; then the manifest's
/// digest is read from the OCI index and the manifest from its blob. Every
/// failed step stops with its error reply.
pub fn export_step(state: ExportState, event: ExportEvent) -> (r: (ExportState, ExportAction))
    requires
        export_expects(state, event),
    ensures
        export_step_spec(state, event, r),
        (state is FileBuilding || state == (ExportState::ScriptBuilding { then_file: false }))
            && event is Built && event->Built_0 is Ok && event->Built_0->Ok_0@.len() > 0 ==> (r.0 is Exporting
            && (r.1 matches ExportAction::Export(x) && x@ == event->Built_0->Ok_0@)),
{
    match state {
        ExportState::Start => match event {
            ExportEvent::Located { script, containerfile } => {
                if script {
                    (ExportState::ScriptBuilding { then_file: containerfile }, ExportAction::BuildScript)
                } else if containerfile {
                    (ExportState::FileBuilding, ExportAction::BuildContainerfile)
                } else {
                    stop(ExportFailure::NothingBuilt)
                }
            },
            _ => stop(ExportFailure::UnknownName),
        },
        ExportState::ScriptBuilding { then_file } => match event {
            ExportEvent::Built(Ok(h)) => {
                if then_file {
                    (ExportState::FileBuilding, ExportAction::BuildContainerfile)
                } else if h.as_str().is_empty() {
                    stop(ExportFailure::NothingBuilt)
                } else {
                    (ExportState::Exporting, ExportAction::Export(h))
                }
            },
            ExportEvent::Built(Err(m)) => stop(ExportFailure::Step(m)),
            _ => stop(ExportFailure::NothingBuilt),
        },
        ExportState::FileBuilding => match event {
            ExportEvent::Built(Ok(h)) => {
                if h.as_str().is_empty() {
                    stop(ExportFailure::NothingBuilt)
                } else {
                    (ExportState::Exporting, ExportAction::Export(h))
                }
            },
            ExportEvent::Built(Err(m)) => stop(ExportFailure::Step(m)),
            _ => stop(ExportFailure::NothingBuilt),
        },
        ExportState::Exporting => match event {
            ExportEvent::Exported(Ok(())) => (ExportState::ReadingIndex, ExportAction::ReadIndex),
            ExportEvent::Exported(Err(m)) => stop(ExportFailure::Step(m)),
            _ => stop(ExportFailure::NothingBuilt),
        },
        ExportState::ReadingIndex => match event {
            ExportEvent::IndexRead(Ok(d)) => match index_manifest_hex(d.as_str()) {
                Ok(h) => (ExportState::ReadingManifest, ExportAction::ReadManifest(h)),
                Err(f) => stop(f),
            },
            ExportEvent::IndexRead(Err(m)) => stop(ExportFailure::Step(m)),
            _ => stop(ExportFailure::NothingBuilt),
        },
        ExportState::ReadingManifest => match event {
            ExportEvent::ManifestRead(Ok(b)) => (
                ExportState::Done,
                ExportAction::Finish(Ok(manifest_with_digest(b))),
            ),
            ExportEvent::ManifestRead(Err(m)) => stop(ExportFailure::Step(m)),
            _ => stop(ExportFailure::NothingBuilt),
        },
        ExportState::Done => stop(ExportFailure::NothingBuilt),
    }
}

/// A failed step stops the export: whenever the event reports a failure,
/// the next state is `Done` and the action is an error reply.
pub proof fn lemma_failed_step_stops(s: ExportState, e: ExportEvent, r: (ExportState, ExportAction))
    requires
        export_expects(s, e),
        export_step_spec(s, e, r),
        event_failed(e),
    ensures
        r.0 is Done,
        r.1 matches ExportAction::Finish(res) && res is Err,
{
}

/// A build that names an image leads to its export: after the Containerfile
/// build, or a script build with no Containerfile build to follow, any
/// non-empty image name (a short name or a full 64-digit image ID alike) is
/// exported as it is, and the export step comes next.
pub proof fn lemma_named_build_is_exported(s: ExportState, e: ExportEvent, r: (ExportState, ExportAction))
    requires
        export_step_spec(s, e, r),
        s is FileBuilding || s == (ExportState::ScriptBuilding { then_file: false }),
        e is Built,
        e->Built_0 is Ok,
        e->Built_0->Ok_0@.len() > 0,
    ensures
        r.0 is Exporting,
        r.1 matches ExportAction::Export(x) && x@ == e->Built_0->Ok_0@,
{
}

/// Nothing is exported after a failed or empty build: an export is asked
/// for only right after a build that named a non-empty image, and exactly
/// that image is exported.
pub proof fn lemma_export_follows_named_build(s: ExportState, e: ExportEvent, r: (ExportState, ExportAction))
    requires
        export_expects(s, e),
        export_step_spec(s, e, r),
        r.1 is Export,
    ensures
        e matches ExportEvent::Built(Ok(h)) && h@.len() > 0 && r.1->Export_0@ == h@,
{
}

/// A manifest is handed back only from a successful read of its blob, with
/// the digest computed from exactly those bytes.
pub proof fn lemma_manifest_only_from_read(s: ExportState, e: ExportEvent, r: (ExportState, ExportAction))
    requires
        export_expects(s, e),
        export_step_spec(s, e, r),
        r.1 matches ExportAction::Finish(res) && res is Ok,
    ensures
        e matches ExportEvent::ManifestRead(Ok(b)) && r.1->Finish_0->Ok_0.0@ == b@
            && r.1->Finish_0->Ok_0.1@ == digest_text(sha256_of(b@)),
{
}

/// The directory of a repository's OCI layout in the cache: `<cache>/<name>`.
pub open spec fn layout_dir_text(cache: Seq<char>, name: Seq<char>) -> Seq<char> {
    cache + "/"@ + name
}

/// The directory of a repository's OCI layout in the cache: `<cache>/<name>`.
pub fn layout_dir(cache: &str, name: &str) -> (r: String)
    ensures
        r@ == layout_dir_text(cache@, name@),
{
    let mut r = String::from_str(cache);
    r.append("/");
    r.append(name);
    r
}

/// The OCI index of a repository's layout: `<cache>/<name>/index.json`.
pub fn index_path(cache: &str, name: &str) -> (r: String)
    ensures
        r@ == layout_dir_text(cache@, name@) + "/index.json"@,
{
    let mut r = layout_dir(cache, name);
    r.append("/index.json");
    r
}

/// The file of a blob in a repository's layout:
/// `<cache>/<name>/blobs/sha256/<hex>`.
pub fn blob_path(cache: &str, name: &str, hex: &str) -> (r: String)
    ensures
        r@ == layout_dir_text(cache@, name@) + "/blobs/sha256/"@ + hex@,
{
    let mut r = layout_dir(cache, name);
    r.append("/blobs/sha256/");
    r.append(hex);
    r
}

/// The target that `buildah push` exports a repository's image to:
/// `oci:<cache>/<name>`.
pub fn oci_push_target(cache: &str, name: &str) -> (r: String)
    ensures
        r@ == "oci:"@ + layout_dir_text(cache@, name@),
{
    let mut r = String::from_str("oci:");
    let dir = layout_dir(cache, name);
    r.append(dir.as_str());
    r
}

} // verus!
