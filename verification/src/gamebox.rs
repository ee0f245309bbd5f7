//! Game-box revisions: which image reference a deploy or reset runs.

use vstd::prelude::*;

use crate::error::AwdError;
use crate::text::{cat, owned, text_eq, uuid_string, uuid_text};

verus! {

/// Build status of a revision whose image was built and pinned.
pub const BUILD_STATUS_READY: &'static str = "ready";

/// The image fields of a game-box revision.
pub struct GameboxRevision {
    pub id: u128,
    pub image_ref: Option<String>,
    pub image_id: Option<String>,
    pub image_repo_digest: Option<String>,
    pub build_status: String,
}

/// The field holds a non-empty text.
pub open spec fn filled(o: Option<String>) -> bool {
    o matches Some(s) && s@.len() > 0
}

/// The text of a filled field.
pub open spec fn text_of(o: Option<String>) -> Seq<char> {
    match o {
        Some(s) => s@,
        None => Seq::empty(),
    }
}

/// The image a revision runs: the repository digest, else the local image id,
/// else the tag (refused for a ready revision, which must be pinned); the
/// error message otherwise.
pub open spec fn image_choice(rev: GameboxRevision) -> Result<Seq<char>, Seq<char>> {
    if filled(rev.image_repo_digest) {
        Ok(text_of(rev.image_repo_digest))
    } else if filled(rev.image_id) {
        Ok(text_of(rev.image_id))
    } else if filled(rev.image_ref) {
        if rev.build_status@ == BUILD_STATUS_READY@ {
            Err("ready revision "@ + uuid_text(rev.id) + " has no image pin (image_repo_digest/image_id)"@)
        } else {
            Ok(text_of(rev.image_ref))
        }
    } else {
        Err("revision "@ + uuid_text(rev.id) + " has no usable image reference"@)
    }
}

fn filled_text(o: &Option<String>) -> (r: Option<String>)
    ensures
        filled(*o) <==> r is Some,
        r matches Some(s) ==> s@ == text_of(*o),
{
    match o {
        Some(s) => if s.as_str().is_empty() { None } else { Some(s.clone()) },
        None => None,
    }
}


/// The pinned image reference of a revision (see [`image_choice`]); errors are `Validation`.
pub fn effective_image_ref_from_revision(revision: &GameboxRevision) -> (r: Result<String, AwdError>)
    ensures
        match image_choice(*revision) {
            Ok(t) => r matches Ok(s) && s@ == t,
            Err(m) => r matches Err(e) && e matches AwdError::Validation(x) && x@ == m,
        },
{
    if let Some(d) = filled_text(&revision.image_repo_digest) {
        return Ok(d);
    }
    if let Some(id) = filled_text(&revision.image_id) {
        return Ok(id);
    }
    let id_text = uuid_string(revision.id);
    if let Some(tag) = filled_text(&revision.image_ref) {
        if text_eq(revision.build_status.as_str(), BUILD_STATUS_READY) {
            let m = cat(cat(owned("ready revision "), id_text.as_str()), " has no image pin (image_repo_digest/image_id)");
            return Err(AwdError::Validation(m));
        }
        return Ok(tag);
    }
    let m = cat(cat(owned("revision "), id_text.as_str()), " has no usable image reference");
    Err(AwdError::Validation(m))
}


/// The resource and check settings of a game box on an event, next to its
/// revision's defaults.
pub struct RuntimeInputs {
    pub cpu_millis: i64,
    pub memory_bytes: i64,
    pub pids_limit: i64,
    /// The event's healthcheck list (JSON text), overriding the revision's.
    pub healthcheck_override_json: Option<String>,
    pub revision_healthchecks_json: String,
    pub judge_timeout_secs: Option<i32>,
    pub revision_judge_timeout_secs: Option<i32>,
    pub judge_retry_interval_secs: Option<i32>,
    pub revision_judge_retry_interval_secs: Option<i32>,
}

/// The effective settings a deploy, reset, recovery, precheck or judge run uses.
pub struct RuntimeSettings {
    pub cpu_millis: i64,
    pub memory_bytes: i64,
    pub pids_limit: i64,
    pub healthchecks_json: String,
    pub judge_timeout_secs: Option<i32>,
    pub judge_retry_interval_secs: Option<i32>,
}

/// The event's value when set, else the revision's.
pub open spec fn first_set<T>(a: Option<T>, b: Option<T>) -> Option<T> {
    match a {
        Some(x) => Some(x),
        None => b,
    }
}

fn or_i32(a: Option<i32>, b: Option<i32>) -> (r: Option<i32>)
    ensures
        r == first_set(a, b),
{
    match a {
        Some(x) => Some(x),
        None => b,
    }
}

/// Resolves the runtime settings of a mounted game box: its pinned revision
/// must be ready and have an image (see [`image_choice`]); the event's
/// resources apply, its healthchecks and judge timings override the revision's.
pub fn resolve_runtime_settings(revision: &GameboxRevision, inputs: &RuntimeInputs) -> (r: Result<RuntimeSettings, AwdError>)
    ensures
        revision.build_status@ != BUILD_STATUS_READY@ ==> (r matches Err(AwdError::Validation(m))
            && m@ == "GameBox revision "@ + uuid_text(revision.id) + " is not ready (status="@ + revision.build_status@
            + ")"@),
        revision.build_status@ == BUILD_STATUS_READY@ ==> match image_choice(*revision) {
            Err(m) => r matches Err(AwdError::Validation(x)) && x@ == m,
            Ok(_) => r matches Ok(rs) && rs.cpu_millis == inputs.cpu_millis && rs.memory_bytes == inputs.memory_bytes
                && rs.pids_limit == inputs.pids_limit && rs.healthchecks_json@ == (match inputs.healthcheck_override_json {
                Some(h) => h@,
                None => inputs.revision_healthchecks_json@,
            }) && rs.judge_timeout_secs == first_set(inputs.judge_timeout_secs, inputs.revision_judge_timeout_secs)
                && rs.judge_retry_interval_secs == first_set(
                inputs.judge_retry_interval_secs,
                inputs.revision_judge_retry_interval_secs,
            ),
        },
{
    if !text_eq(revision.build_status.as_str(), BUILD_STATUS_READY) {
        let id = uuid_string(revision.id);
        let m = cat(cat(cat(owned("GameBox revision "), id.as_str()), " is not ready (status="), revision.build_status.as_str());
        return Err(AwdError::Validation(cat(m, ")")));
    }
    match effective_image_ref_from_revision(revision) {
        Ok(_) => {},
        Err(e) => return Err(e),
    }
    let healthchecks_json = match &inputs.healthcheck_override_json {
        Some(h) => owned(h.as_str()),
        None => owned(inputs.revision_healthchecks_json.as_str()),
    };
    Ok(RuntimeSettings {
        cpu_millis: inputs.cpu_millis,
        memory_bytes: inputs.memory_bytes,
        pids_limit: inputs.pids_limit,
        healthchecks_json,
        judge_timeout_secs: or_i32(inputs.judge_timeout_secs, inputs.revision_judge_timeout_secs),
        judge_retry_interval_secs: or_i32(inputs.judge_retry_interval_secs, inputs.revision_judge_retry_interval_secs),
    })
}

/// Most candidates tried when making a safe name unique.
pub const SAFE_NAME_ATTEMPTS: u32 = 1000;

/// The base of a generated safe name: the slug, or `gamebox` for an empty one.
pub fn safe_name_base(slug: &str) -> (b: String)
    ensures
        b@ == (if slug@.len() == 0 { "gamebox"@ } else { slug@ }),
{
    if slug.is_empty() {
        owned("gamebox")
    } else {
        owned(slug)
    }
}

/// Candidate `attempt` (from 0) for a unique safe name: the base itself, then
/// `{base}-1`, `{base}-2`, …; after the last allowed attempt the search fails.
pub fn safe_name_candidate(base: &str, attempt: u32) -> (r: Result<String, AwdError>)
    ensures
        attempt == 0 ==> (r matches Ok(c) && c@ == base@),
        0 < attempt < SAFE_NAME_ATTEMPTS ==> (r matches Ok(c) && c@ == base@ + "-"@ + crate::text::dec(attempt as nat)),
        attempt >= SAFE_NAME_ATTEMPTS ==> (r matches Err(AwdError::Internal(m)) && m@ == "safe_name 去重溢出"@),
{
    if attempt >= SAFE_NAME_ATTEMPTS {
        return Err(AwdError::Internal(owned("safe_name 去重溢出")));
    }
    if attempt == 0 {
        return Ok(owned(base));
    }
    let n = crate::text::u64_decimal(attempt as u64);
    Ok(cat(cat(owned(base), "-"), n.as_str()))
}

/// Build status of a revision whose image is being built.
pub const BUILD_STATUS_BUILDING: &'static str = "building";
/// Build status of a revision whose build failed.
pub const BUILD_STATUS_FAILED: &'static str = "failed";

/// What importing a package does for its (game box, version).
#[derive(Debug, Clone, Copy, PartialEq, Eq, Structural)]
pub enum ImportDecision {
    /// The same package is already built: nothing to build.
    AlreadyReady,
    /// A failed build of the same package is retried.
    RetryFailed,
    /// No revision of this version exists: a new one is built.
    CreateNew,
}

/// The decision on an import, from the existing revision of the version
/// (its build status and package digest) and the new package's digest.
pub open spec fn import_decision(existing: Option<(Seq<char>, Seq<char>)>, digest: Seq<char>) -> Option<ImportDecision> {
    match existing {
        None => Some(ImportDecision::CreateNew),
        Some((status, old_digest)) => if status == BUILD_STATUS_READY@ {
            if old_digest == digest { Some(ImportDecision::AlreadyReady) } else { None }
        } else if status == BUILD_STATUS_BUILDING@ {
            None
        } else if status == BUILD_STATUS_FAILED@ {
            if old_digest == digest { Some(ImportDecision::RetryFailed) } else { None }
        } else {
            None
        },
    }
}

/// Message of a refused import of `version`, by the existing revision's build status.
pub open spec fn import_refusal(status: Seq<char>, version: Seq<char>) -> Seq<char> {
    if status == BUILD_STATUS_READY@ {
        "VERSION_CONFLICT: version "@ + version + " already ready with different package_digest"@
    } else if status == BUILD_STATUS_BUILDING@ {
        "build in progress for this version"@
    } else if status == BUILD_STATUS_FAILED@ {
        "VERSION_CONFLICT: failed version "@ + version + " has different package_digest; bump version"@
    } else {
        "unknown build_status for version "@ + version
    }
}

/// Decides an import; every refusal is a `Conflict` (a different package
/// under a ready or failed version, a build in progress, an unknown status).
pub fn decide_import(existing: Option<(&str, &str)>, package_digest: &str, version: &str) -> (r: Result<ImportDecision, AwdError>)
    ensures
        match import_decision(match existing { Some((s, d)) => Some((s@, d@)), None => None }, package_digest@) {
            Some(d) => r == Ok::<ImportDecision, AwdError>(d),
            None => r matches Err(AwdError::Conflict(m)) && existing matches Some((st, _))
                && m@ == import_refusal(st@, version@),
        },
{
    match existing {
        None => Ok(ImportDecision::CreateNew),
        Some((status, old_digest)) => {
            if text_eq(status, BUILD_STATUS_READY) {
                if text_eq(old_digest, package_digest) {
                    Ok(ImportDecision::AlreadyReady)
                } else {
                    let m = cat(cat(owned("VERSION_CONFLICT: version "), version), " already ready with different package_digest");
                    Err(AwdError::Conflict(m))
                }
            } else if text_eq(status, BUILD_STATUS_BUILDING) {
                Err(AwdError::Conflict(owned("build in progress for this version")))
            } else if text_eq(status, BUILD_STATUS_FAILED) {
                if text_eq(old_digest, package_digest) {
                    Ok(ImportDecision::RetryFailed)
                } else {
                    let m = cat(cat(owned("VERSION_CONFLICT: failed version "), version), " has different package_digest; bump version");
                    Err(AwdError::Conflict(m))
                }
            } else {
                Err(AwdError::Conflict(cat(owned("unknown build_status for version "), version)))
            }
        },
    }
}

/// Temporary tag an import builds under: `{image_ref}-import-{first 8 hex digits of the revision}`.
pub fn import_temp_tag(image_ref: &str, revision_id: u128) -> (s: String)
    ensures
        s@ == image_ref@ + "-import-"@ + crate::text::hex128(revision_id).subrange(0, 8),
{
    let t = uuid_string(revision_id);
    let cs = crate::text::to_chars(t.as_str());
    let head = crate::text::sub_chars(cs.as_slice(), 0, 8);
    assert(head@ =~= crate::text::hex128(revision_id).subrange(0, 8));
    let h = crate::text::from_chars(head.as_slice());
    cat(cat(owned(image_ref), "-import-"), h.as_str())
}

/// What an import returns: the game box, the revision and whether an
/// identical ready revision already existed (no build).
pub struct ImportGameBoxResult {
    pub gamebox_id: u128,
    pub revision: GameboxRevision,
    pub already_exists: bool,
}

/// An import against the version's existing revision (with the package
/// digest stored for it): an identical ready revision is returned as it is,
/// marked `already_exists`, and nothing is built; `Ok(None)` means a build
/// follows (a new revision, or a retry of a failed one); a refusal is the
/// `Conflict` of [`decide_import`].
pub fn import_existing(
    gamebox_id: u128,
    existing: Option<(GameboxRevision, String)>,
    package_digest: &str,
    version: &str,
) -> (r: Result<Option<ImportGameBoxResult>, AwdError>)
    ensures
        match import_decision(
            match existing {
                Some((rev, d)) => Some((rev.build_status@, d@)),
                None => None,
            },
            package_digest@,
        ) {
            Some(ImportDecision::AlreadyReady) => r matches Ok(Some(res)) && existing matches Some((rev, _))
                && res.gamebox_id == gamebox_id && res.revision == rev && res.already_exists,
            Some(_) => r matches Ok(None),
            None => r matches Err(AwdError::Conflict(m)) && existing matches Some((rev, _)) && m@ == import_refusal(
                rev.build_status@,
                version@,
            ),
        },
{
    match existing {
        None => {
            match decide_import(None, package_digest, version) {
                Ok(_) => Ok(None),
                Err(e) => Err(e),
            }
        },
        Some((rev, digest)) => {
            match decide_import(Some((rev.build_status.as_str(), digest.as_str())), package_digest, version) {
                Ok(ImportDecision::AlreadyReady) => Ok(
                    Some(ImportGameBoxResult { gamebox_id, revision: rev, already_exists: true }),
                ),
                Ok(_) => Ok(None),
                Err(e) => Err(e),
            }
        },
    }
}

/// Importing a package again after that same package was built ready decides
/// `AlreadyReady`: nothing is built, and [`import_existing`] hands back the
/// stored revision unchanged.
pub proof fn lemma_reimport_of_ready_package(digest: Seq<char>)
    ensures
        import_decision(Some((BUILD_STATUS_READY@, digest)), digest) == Some(ImportDecision::AlreadyReady),
{
}

/// Kinds of a package manifest (`meta.toml`) error.
#[derive(Debug, Clone, Copy, PartialEq, Eq, Structural)]
pub enum MetaErrorKind {
    UnknownField,
    Parse,
    /// A required field (name, author, category, username) is empty.
    EmptyField,
    /// A malformed version, or one with build metadata.
    Version,
    InvalidSafeName,
    SafeNameRequired,
    InvalidJudgePath,
    Other,
}

/// The code a manifest error is reported under.
pub open spec fn meta_error_code(kind: MetaErrorKind) -> Seq<char> {
    match kind {
        MetaErrorKind::UnknownField => "MANIFEST_UNKNOWN_FIELD: "@,
        MetaErrorKind::Version => "INVALID_VERSION: "@,
        MetaErrorKind::InvalidSafeName => "INVALID_SAFE_NAME: "@,
        MetaErrorKind::SafeNameRequired => "SAFE_NAME_REQUIRED: "@,
        MetaErrorKind::InvalidJudgePath => "INVALID_JUDGE_PATH: "@,
        _ => "INVALID_MANIFEST: "@,
    }
}

/// A manifest error as an import reports it: `Validation`, its code, then its text.
pub fn meta_error(kind: MetaErrorKind, text: &str) -> (e: AwdError)
    ensures
        e matches AwdError::Validation(m) && m@ == meta_error_code(kind) + text@,
{
    let code = match kind {
        MetaErrorKind::UnknownField => "MANIFEST_UNKNOWN_FIELD: ",
        MetaErrorKind::Version => "INVALID_VERSION: ",
        MetaErrorKind::InvalidSafeName => "INVALID_SAFE_NAME: ",
        MetaErrorKind::SafeNameRequired => "SAFE_NAME_REQUIRED: ",
        MetaErrorKind::InvalidJudgePath => "INVALID_JUDGE_PATH: ",
        _ => "INVALID_MANIFEST: ",
    };
    AwdError::Validation(cat(owned(code), text))
}

/// Registry credentials are passed to a push only when some part of them is configured.
pub fn registry_auth_configured(has_username: bool, has_password: bool, has_server_address: bool) -> (b: bool)
    ensures
        b == (has_username || has_password || has_server_address),
{
    has_username || has_password || has_server_address
}

/// The repository digest of a push; an empty one cannot pin the image.
pub fn pushed_digest(digest: String) -> (r: Result<String, AwdError>)
    ensures
        digest@.len() > 0 ==> (r matches Ok(d) && d@ == digest@),
        digest@.len() == 0 ==> (r matches Err(AwdError::Docker(m))
            && m@ == "DIGEST_UNAVAILABLE: push succeeded but RepoDigest empty"@),
{
    if digest.as_str().is_empty() {
        return Err(AwdError::Docker(owned("DIGEST_UNAVAILABLE: push succeeded but RepoDigest empty")));
    }
    Ok(digest)
}

/// The built image's id: the one the inspection reports, else the build's own.
pub fn built_image_id(inspected: String, built: String) -> (id: String)
    ensures
        id@ == (if inspected@.len() == 0 { built@ } else { inspected@ }),
{
    if inspected.as_str().is_empty() {
        built
    } else {
        inspected
    }
}

} // verus!
