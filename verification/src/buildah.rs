//! What the registry makes of buildah: the command lines it runs, and the
//! results it reads from their exit status and output.
use std::path::PathBuf;
use vstd::prelude::*;
use vstd::string::StringExecFns;
use vstd::utf8::{
    decode_utf8, decode_utf8_encode_utf8, encode_scalar, encode_utf8, encode_utf8_decode_utf8,
    encode_utf8_valid_utf8, valid_utf8,
};

use crate::json::{json_from_str, json_of_text, json_pointer_str};
use crate::text::{
    chars_of, ends_with_chars, final_line, final_line_of, has_prefix, lemma_final_line_after_break, has_suffix,
    signed_decimal, signed_decimal_string, starts_with_chars, str_from_utf8, trim, trim_bounds,
};
use vstd::string::StrSliceExecFns;

verus! {

/// The shell command line that looks buildah up on the `PATH`, given to
/// `sh -c` as one argument: `command -v buildah`.
pub fn lookup_command() -> (r: String)
    ensures
        r@ == "command -v buildah"@,
{
    String::from_str("command -v buildah")
}

/// Whether `command -v buildah` found buildah: it exited with status 0.
pub fn command_found(exit_code: i32) -> (r: bool)
    ensures
        r == (exit_code == 0),
{
    exit_code == 0
}

/// The two ways to build an image.
#[derive(Debug)]
pub enum BuildKind {
    /// Run an executable buildah script under `buildah unshare`.
    Script,
    /// `buildah bud` on a directory holding a Dockerfile or Containerfile.
    Containerfile,
}

/// The shell command line that builds an image from `path`.
pub open spec fn build_command_line(kind: BuildKind, path: Seq<char>) -> Seq<char> {
    match kind {
        BuildKind::Script => "buildah unshare "@ + path,
        BuildKind::Containerfile => "buildah bud -t "@ + path,
    }
}

/// The shell command line that builds an image from `path`:
/// `buildah unshare <script>` or `buildah bud -t <directory>`.
pub fn build_command(kind: BuildKind, path: &str) -> (r: String)
    ensures
        r@ == build_command_line(kind, path@),
{
    let mut r = match kind {
        BuildKind::Script => String::from_str("buildah unshare "),
        BuildKind::Containerfile => String::from_str("buildah bud -t "),
    };
    r.append(path);
    r
}

/// The last line of `v` read as UTF-8 text, as `str::lines` splits it; the
/// empty string when there is no line. Fails exactly on invalid UTF-8.
pub fn vec_u8_to_last_line(v: &[u8]) -> (r: Result<String, std::str::Utf8Error>)
    ensures
        r is Ok <==> valid_utf8(v@),
        r matches Ok(s) ==> s@ == final_line(decode_utf8(v@)),
{
    match str_from_utf8(v) {
        Ok(text) => Ok(final_line_of(text)),
        Err(e) => Err(e),
    }
}

/// UTF-8 encoding maps concatenation of texts to concatenation of bytes.
proof fn lemma_encode_utf8_concat(a: Seq<char>, b: Seq<char>)
    ensures
        encode_utf8(a + b) == encode_utf8(a) + encode_utf8(b),
    decreases a.len(),
{
    if a.len() == 0 {
        assert(a + b =~= b);
        assert(encode_utf8(a) + encode_utf8(b) =~= encode_utf8(b));
    } else {
        assert((a + b).drop_first() =~= a.drop_first() + b);
        lemma_encode_utf8_concat(a.drop_first(), b);
        assert(encode_utf8(a + b) =~= encode_utf8(a) + encode_utf8(b));
    }
}

/// Decoding bytes with a line-feed byte between two valid UTF-8 parts gives
/// the two texts with `\n` between them.
proof fn lemma_decode_around_line_feed(s: Seq<u8>, t: Seq<u8>)
    requires
        valid_utf8(s),
        valid_utf8(t),
    ensures
        valid_utf8(s + seq![10u8] + t),
        decode_utf8(s + seq![10u8] + t) == decode_utf8(s) + seq!['\n'] + decode_utf8(t),
{
    let cs = decode_utf8(s) + seq!['\n'] + decode_utf8(t);
    assert(('\n' as u32) == 10u32);
    assert(((10u32 & 0x7Fu32) as u8) == 10u8) by (bit_vector);
    assert(encode_scalar(10u32) =~= seq![10u8]);
    assert(seq!['\n'].drop_first() =~= Seq::<char>::empty());
    assert(seq!['\n'][0] as u32 == 10u32);
    assert(encode_utf8(Seq::<char>::empty()) =~= Seq::<u8>::empty());
    assert(encode_utf8(seq!['\n']) == encode_scalar(10u32) + encode_utf8(seq!['\n'].drop_first()));
    assert(encode_utf8(seq!['\n']) =~= seq![10u8]);
    lemma_encode_utf8_concat(decode_utf8(s), seq!['\n']);
    lemma_encode_utf8_concat(decode_utf8(s) + seq!['\n'], decode_utf8(t));
    decode_utf8_encode_utf8(s);
    decode_utf8_encode_utf8(t);
    assert(encode_utf8(cs) == s + seq![10u8] + t);
    encode_utf8_valid_utf8(cs);
    encode_utf8_decode_utf8(cs);
}

/// Text before a line break never changes the last line: for valid UTF-8
/// bytes `s` and non-empty `t`, [`vec_u8_to_last_line`] gives the same line
/// for `s`, a line feed, `t` as for `t` alone.
pub proof fn lemma_last_line_after_break_bytes(s: Seq<u8>, t: Seq<u8>)
    requires
        valid_utf8(s),
        valid_utf8(t),
        t.len() > 0,
    ensures
        valid_utf8(s + seq![10u8] + t),
        final_line(decode_utf8(s + seq![10u8] + t)) == final_line(decode_utf8(t)),
{
    lemma_decode_around_line_feed(s, t);
    assert(decode_utf8(t).len() > 0) by {
        reveal_with_fuel(decode_utf8, 1);
    }
    lemma_final_line_after_break(decode_utf8(s), decode_utf8(t));
}

/// Why a build did not name an image.
#[derive(Debug)]
pub enum BuildError {
    /// buildah exited with a non-zero status; the message is `buildah error`.
    Failed(String),
    /// buildah's output is not UTF-8.
    InvalidUtf8(std::str::Utf8Error),
}

/// The image a finished build names: on exit status 0, the last line of its
/// standard output; otherwise the failure `buildah error`.
pub fn built_image_name(exit_code: i32, stdout: &[u8]) -> (r: Result<String, BuildError>)
    ensures
        exit_code != 0 ==> (r matches Err(BuildError::Failed(m)) && m@ == "buildah error"@),
        exit_code == 0 && !valid_utf8(stdout@) ==> (r matches Err(BuildError::InvalidUtf8(_))),
        exit_code == 0 && valid_utf8(stdout@) ==> (r matches Ok(s) && s@ == final_line(
            decode_utf8(stdout@),
        )),
{
    if exit_code == 0 {
        match vec_u8_to_last_line(stdout) {
            Ok(s) => Ok(s),
            Err(e) => Err(BuildError::InvalidUtf8(e)),
        }
    } else {
        Err(BuildError::Failed(String::from_str("buildah error")))
    }
}

/// What an entry of a build directory says about how to build.
#[derive(Debug)]
pub enum EntryAction {
    /// Not a build file: look at the next entry.
    Skip,
    /// A Dockerfile or Containerfile: build the directory with `buildah bud`.
    Containerfile,
    /// A shell script: run it under `buildah unshare`.
    Script,
}

/// The action for an entry: a file whose name starts with `Dockerfile` or
/// `Containerfile` is a Containerfile; another file whose name ends with `sh`
/// is a script; anything else is skipped.
pub open spec fn entry_action(is_file: bool, name: Seq<char>) -> EntryAction {
    if !is_file {
        EntryAction::Skip
    } else if has_prefix(name, "Dockerfile"@) || has_prefix(name, "Containerfile"@) {
        EntryAction::Containerfile
    } else if has_suffix(name, "sh"@) {
        EntryAction::Script
    } else {
        EntryAction::Skip
    }
}

/// Classifies one entry of a build directory by its kind and file name.
pub fn classify_entry(is_file: bool, file_name: &str) -> (r: EntryAction)
    ensures
        r == entry_action(is_file, file_name@),
        !is_file ==> r is Skip,
        is_file && (has_prefix(file_name@, "Dockerfile"@) || has_prefix(file_name@, "Containerfile"@))
            ==> r is Containerfile,
        is_file && !has_prefix(file_name@, "Dockerfile"@) && !has_prefix(
            file_name@,
            "Containerfile"@,
        ) && has_suffix(file_name@, "sh"@) ==> r is Script,
        is_file && !has_prefix(file_name@, "Dockerfile"@) && !has_prefix(
            file_name@,
            "Containerfile"@,
        ) && !has_suffix(file_name@, "sh"@) ==> r is Skip,
{
    if !is_file {
        return EntryAction::Skip;
    }
    let name = chars_of(file_name);
    if starts_with_chars(&name, &chars_of("Dockerfile")) || starts_with_chars(
        &name,
        &chars_of("Containerfile"),
    ) {
        EntryAction::Containerfile
    } else if ends_with_chars(&name, &chars_of("sh")) {
        EntryAction::Script
    } else {
        EntryAction::Skip
    }
}

/// What a build directory is built from: a script (`Some` first) or the
/// directory holding a Dockerfile or Containerfile (`Some` second).
pub open spec fn target_of(action: EntryAction, entry_path: PathBuf, dir: PathBuf) -> Option<
    (Option<PathBuf>, Option<PathBuf>),
> {
    match action {
        EntryAction::Skip => None,
        EntryAction::Containerfile => Some((None, Some(dir))),
        EntryAction::Script => Some((Some(entry_path), None)),
    }
}

/// The result that an entry of the build directory `dir` decides, if any: a
/// Containerfile builds `dir`, a script builds from the entry's own path, and
/// a skipped entry decides nothing. Exactly one of the two parts is `Some`.
pub fn entry_target(action: EntryAction, entry_path: PathBuf, dir: PathBuf) -> (r: Option<
    (Option<PathBuf>, Option<PathBuf>),
>)
    ensures
        r == target_of(action, entry_path, dir),
        r matches Some(p) ==> (p.0 is Some) != (p.1 is Some),
{
    match action {
        EntryAction::Skip => None,
        EntryAction::Containerfile => Some((None, Some(dir))),
        EntryAction::Script => Some((Some(entry_path), None)),
    }
}

/// The error when no entry of a repository's build directory decides how
/// to build (or there is no such directory), for the path shown as `shown`:
/// `Cannot find a subdirectory for path: <shown>`.
pub fn no_build_directory(shown: &str) -> (r: String)
    ensures
        r@ == "Cannot find a subdirectory for path: "@ + shown@,
{
    let mut r = String::from_str("Cannot find a subdirectory for path: ");
    r.append(shown);
    r
}

/// How a build directory's entries are read: anything but a file is skipped;
/// a file whose name starts with `Dockerfile` or `Containerfile` builds the
/// directory with `buildah bud`, whatever follows in the name; any other
/// file whose name ends with `sh` is run as a script; the rest is skipped.
pub proof fn lemma_entry_classification(is_file: bool, name: Seq<char>)
    ensures
        !is_file ==> entry_action(is_file, name) is Skip,
        is_file && (has_prefix(name, "Dockerfile"@) || has_prefix(name, "Containerfile"@))
            ==> entry_action(is_file, name) is Containerfile,
        is_file && !has_prefix(name, "Dockerfile"@) && !has_prefix(name, "Containerfile"@)
            && has_suffix(name, "sh"@) ==> entry_action(is_file, name) is Script,
        is_file && !has_prefix(name, "Dockerfile"@) && !has_prefix(name, "Containerfile"@)
            && !has_suffix(name, "sh"@) ==> entry_action(is_file, name) is Skip,
{
}

/// The path of an image's manifest in buildah's storage:
/// `<graphroot>/overlay-images/<image>/manifest`.
pub fn manifest_path(graphroot: &str, image: &str) -> (r: String)
    ensures
        r@ == graphroot@ + "/overlay-images/"@ + image@ + "/manifest"@,
{
    let mut r = String::from_str(graphroot);
    r.append("/overlay-images/");
    r.append(image);
    r.append("/manifest");
    r
}

/// Why buildah's storage root could not be read from `buildah info`.
#[derive(Debug)]
pub enum GraphRootError {
    /// Its standard error or standard output is not UTF-8.
    InvalidUtf8(std::str::Utf8Error),
    /// What went wrong, as reported: the exit status, standard error, and the
    /// JSON parse error, each that applies on a line of its own.
    Report(String),
}

/// The JSON Pointer of the storage root in `buildah info`'s output.
pub open spec fn graphroot_pointer() -> Seq<char> {
    "/store/GraphRoot"@
}

/// The report of a non-zero exit status: `buildah Error code: <code>`.
pub open spec fn status_report(exit_code: Option<i32>) -> Seq<char> {
    if exit_code is Some && exit_code->0 != 0 {
        "buildah Error code: "@ + signed_decimal(exit_code->0 as int)
    } else {
        Seq::<char>::empty()
    }
}

/// The report of the exit status followed, when there is any, by standard
/// error on a new line.
pub open spec fn info_report(exit_code: Option<i32>, stderr: Seq<u8>) -> Seq<char> {
    if stderr.len() > 0 {
        status_report(exit_code) + "\n"@ + decode_utf8(stderr)
    } else {
        status_report(exit_code)
    }
}

/// Standard error is empty or UTF-8, so reading goes on to standard output.
pub open spec fn stderr_readable(stderr: Seq<u8>) -> bool {
    stderr.len() == 0 || valid_utf8(stderr)
}

/// Standard output is a JSON document (read after a readable standard error).
pub open spec fn info_is_json(stderr: Seq<u8>, stdout: Seq<u8>) -> bool {
    &&& stderr_readable(stderr)
    &&& stdout.len() > 0
    &&& valid_utf8(stdout)
    &&& json_of_text(decode_utf8(stdout)) is Ok
}

/// The case in which reading the storage root fails on a missing value:
/// standard output is a JSON document without a string at `store.GraphRoot`.
pub open spec fn graphroot_missing(stderr: Seq<u8>, stdout: Seq<u8>) -> bool {
    info_is_json(stderr, stdout) && !json_of_text(decode_utf8(stdout))->Ok_0.contains_key(
        graphroot_pointer(),
    )
}

/// What reading the storage root gives, in each case.
pub open spec fn graphroot_outcome(
    exit_code: Option<i32>,
    stderr: Seq<u8>,
    stdout: Seq<u8>,
    r: Result<String, GraphRootError>,
) -> bool {
    &&& (!stderr_readable(stderr) ==> (r matches Err(GraphRootError::InvalidUtf8(_))))
    &&& (stderr_readable(stderr) && stdout.len() > 0 && !valid_utf8(stdout) ==> (r matches Err(
        GraphRootError::InvalidUtf8(_),
    )))
    &&& (info_is_json(stderr, stdout) ==> (r matches Ok(p) && p@ == trim(
        json_of_text(decode_utf8(stdout))->Ok_0[graphroot_pointer()],
    )))
    &&& (stderr_readable(stderr) && stdout.len() > 0 && valid_utf8(stdout) && json_of_text(
        decode_utf8(stdout),
    ) is Err ==> (r matches Err(GraphRootError::Report(m)) && m@ == info_report(exit_code, stderr)
        + "\n"@ + json_of_text(decode_utf8(stdout))->Err_0))
    &&& (stderr_readable(stderr) && stdout.len() == 0 ==> (r matches Err(GraphRootError::Report(m))
        && m@ == info_report(exit_code, stderr)))
}

/// Reads the storage root from `buildah info`'s exit status, standard error
/// and standard output, parsing the output once: `None` exactly when the JSON
/// output has no string at `store.GraphRoot`.
fn read_graphroot(exit_code: Option<i32>, stderr: &[u8], stdout: &[u8]) -> (r: Option<
    Result<String, GraphRootError>,
>)
    ensures
        r is None <==> graphroot_missing(stderr@, stdout@),
        r matches Some(res) ==> graphroot_outcome(exit_code, stderr@, stdout@, res),
{
    let mut report = String::new();
    if let Some(code) = exit_code {
        if code != 0 {
            report.append("buildah Error code: ");
            let digits = signed_decimal_string(code);
            report.append(digits.as_str());
        }
    }
    assert(report@ =~= status_report(exit_code));
    if stderr.len() > 0 {
        match str_from_utf8(stderr) {
            Ok(text) => {
                report.append("\n");
                report.append(text);
            },
            Err(e) => {
                return Some(Err(GraphRootError::InvalidUtf8(e)));
            },
        }
    }
    assert(report@ =~= info_report(exit_code, stderr@));
    if stdout.len() > 0 {
        let text = match str_from_utf8(stdout) {
            Ok(text) => text,
            Err(e) => {
                return Some(Err(GraphRootError::InvalidUtf8(e)));
            },
        };
        match json_from_str(text) {
            Ok(v) => {
                let root = match json_pointer_str(&v, "/store/GraphRoot") {
                    Some(root) => root,
                    None => {
                        return None;
                    },
                };
                let chars = chars_of(root);
                let (lo, hi) = trim_bounds(&chars);
                return Some(Ok(root.substring_char(lo, hi).to_owned()));
            },
            Err(e) => {
                report.append("\n");
                let message = e.to_string();
                report.append(message.as_str());
            },
        }
    }
    Some(Err(GraphRootError::Report(report)))
}

/// buildah's storage root (where it keeps images and manifests) from the exit
/// status, standard error and standard output of `buildah info`: the string at
/// `store.GraphRoot` of the JSON output, with surrounding white space removed.
/// When there is no JSON output the error reports the exit status and
/// standard error; when the output is not JSON it also reports the parse error.
pub fn graphroot_from_output(exit_code: Option<i32>, stderr: &[u8], stdout: &[u8]) -> (r: Result<
    String,
    GraphRootError,
>)
    requires
        !graphroot_missing(stderr@, stdout@),
    ensures
        graphroot_outcome(exit_code, stderr@, stdout@, r),
        (stderr@.len() == 0 || valid_utf8(stderr@)) && stdout@.len() > 0 && valid_utf8(stdout@)
            && json_of_text(decode_utf8(stdout@)) is Ok && json_of_text(
            decode_utf8(stdout@),
        )->Ok_0.contains_key("/store/GraphRoot"@) ==> (r matches Ok(p) && p@ == trim(
            json_of_text(decode_utf8(stdout@))->Ok_0["/store/GraphRoot"@],
        )),
{
    read_graphroot(exit_code, stderr, stdout).unwrap()
}

/// Reads the storage root as [`graphroot_from_output`] does, after checking
/// that `buildah info` printed one: `None` when its JSON output has no string
/// at `store.GraphRoot`.
pub fn try_graphroot_from_output(exit_code: Option<i32>, stderr: &[u8], stdout: &[u8]) -> (r: Option<
    Result<String, GraphRootError>,
>)
    ensures
        r is None <==> graphroot_missing(stderr@, stdout@),
        r matches Some(res) ==> graphroot_outcome(exit_code, stderr@, stdout@, res),
        (stderr@.len() == 0 || valid_utf8(stderr@)) && stdout@.len() > 0 && valid_utf8(stdout@)
            && json_of_text(decode_utf8(stdout@)) is Ok && json_of_text(
            decode_utf8(stdout@),
        )->Ok_0.contains_key("/store/GraphRoot"@) ==> (r matches Some(Ok(p)) && p@ == trim(
            json_of_text(decode_utf8(stdout@))->Ok_0["/store/GraphRoot"@],
        )),
{
    read_graphroot(exit_code, stderr, stdout)
}

/// The storage root does not depend on standard error or the exit status:
/// whenever standard error is empty or UTF-8 (a warning, say) and standard
/// output is a JSON document with a string at `store.GraphRoot`, the result
/// is that string with white space trimmed, so two readings of the same
/// output agree whatever was printed on standard error.
pub proof fn lemma_graphroot_ignores_stderr(
    code1: Option<i32>,
    code2: Option<i32>,
    stderr1: Seq<u8>,
    stderr2: Seq<u8>,
    stdout: Seq<u8>,
    r1: Result<String, GraphRootError>,
    r2: Result<String, GraphRootError>,
)
    requires
        graphroot_outcome(code1, stderr1, stdout, r1),
        graphroot_outcome(code2, stderr2, stdout, r2),
        stderr1.len() == 0 || valid_utf8(stderr1),
        stderr2.len() == 0 || valid_utf8(stderr2),
        stdout.len() > 0,
        valid_utf8(stdout),
        json_of_text(decode_utf8(stdout)) is Ok,
        json_of_text(decode_utf8(stdout))->Ok_0.contains_key("/store/GraphRoot"@),
    ensures
        r1 matches Ok(p) && p@ == trim(json_of_text(decode_utf8(stdout))->Ok_0["/store/GraphRoot"@]),
        r2 matches Ok(q) && q@ == trim(json_of_text(decode_utf8(stdout))->Ok_0["/store/GraphRoot"@]),
{
}

} // verus!
