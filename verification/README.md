# jitregistry

A container registry-like server that builds images just in time with
buildah and serves them over the OCI distribution pull endpoints.

- `src/` is the verified library (Verus):
  - `digest` — `sha256:<hex>` digests: computing them, recognising digest
    references, taking their hex part;
  - `registry` — the replies of the pull endpoints and of OCI errors, the
    manifest content type, and the decisions between the build, export and
    file-reading steps;
  - `buildah` — the command lines run for builds, and what is read from
    buildah's exit status and output (image names, the storage root);
  - `json`, `text` — JSON documents and string literals through
    `serde_json`, and character-level text functions;
  - `config` — the directories shared by the handlers.
- `app/` is the server around it: command line, HTTP routes, processes and
  files.
- `tests/` exercise the library on concrete values.
