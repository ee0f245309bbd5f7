//! Settings of the practice JudgeServer of an AWD-Plus practice event: the
//! checks on an administrator's change, how a change applies, and the data
//! plane endpoints shown to players.

use vstd::prelude::*;
use vstd::string::*;

use crate::awdp_ident::PRACTICE_JUDGE_PORT;
use crate::judge::blank;
use crate::lines::trim;
use crate::text::{cat, dec, owned, to_chars, u64_decimal};

verus! {

/// An administrator's change of the practice JudgeServer settings.
pub struct PracticeJudgePatchRequest {
    pub enabled: Option<bool>,
    pub judge_server_url: Option<String>,
    pub interval_secs: Option<i32>,
    pub flag_path: Option<String>,
}

/// A change applied to the stored settings (absent fields stay).
pub struct PracticeJudgeSettingsPatch {
    pub enabled: Option<bool>,
    pub judge_server_url: Option<String>,
    pub interval_secs: Option<i32>,
    pub flag_path: Option<String>,
}

/// The stored practice JudgeServer settings.
pub struct PracticeJudgeSettings {
    pub enabled: bool,
    pub judge_server_url: String,
    pub interval_secs: i32,
    pub flag_path: String,
}

/// The text starts with `prefix`.
pub open spec fn starts_with(s: Seq<char>, prefix: Seq<char>) -> bool {
    s.len() >= prefix.len() && s.subrange(0, prefix.len() as int) == prefix
}

/// The first rule a change breaks, as its message: the interval must lie in
/// 10..=86400 seconds, the flag path must start with `/` and have at most 200
/// bytes, a non-blank JudgeServer URL must be `http://` or `https://`.
pub open spec fn patch_request_fault(req: PracticeJudgePatchRequest) -> Option<Seq<char>> {
    if req.interval_secs matches Some(secs) && !(10 <= secs <= 86400) {
        Some("interval_secs 必须在 10~86400 之间"@)
    } else if req.flag_path matches Some(p) && (!starts_with(p@, "/"@) || vstd::utf8::encode_utf8(p@).len() > 200) {
        Some("flag_path 必须以 / 开头且不超过 200 字符"@)
    } else if req.judge_server_url matches Some(u) && !blank(u@) && !starts_with(u@, "http://"@) && !starts_with(u@, "https://"@) {
        Some("judge_server_url 必须是 http(s):// 地址或留空"@)
    } else {
        None
    }
}

fn text_starts_with(s: &str, prefix: &str) -> (b: bool)
    ensures
        b == starts_with(s@, prefix@),
{
    let a = to_chars(s);
    let p = to_chars(prefix);
    if p.len() > a.len() {
        return false;
    }
    let mut i: usize = 0;
    while i < p.len()
        invariant
            a@ == s@,
            p@ == prefix@,
            p@.len() <= a@.len(),
            i <= p@.len(),
            forall|k: int| 0 <= k < i ==> a@[k] == p@[k],
        decreases p@.len() - i,
    {
        if a[i] != p[i] {
            assert(s@.subrange(0, prefix@.len() as int)[i as int] != prefix@[i as int]);
            return false;
        }
        i = i + 1;
    }
    assert(s@.subrange(0, prefix@.len() as int) =~= prefix@);
    true
}

/// Checks an administrator's change; the error is the first broken rule.
pub fn validate_practice_judge_patch(req: &PracticeJudgePatchRequest) -> (r: Result<(), String>)
    ensures
        match patch_request_fault(*req) {
            None => r is Ok,
            Some(m) => r matches Err(e) && e@ == m,
        },
{
    if let Some(secs) = req.interval_secs {
        if !(10 <= secs && secs <= 86400) {
            return Err(owned("interval_secs 必须在 10~86400 之间"));
        }
    }
    if let Some(path) = &req.flag_path {
        if !text_starts_with(path.as_str(), "/") || path.as_str().as_bytes().len() > 200 {
            return Err(owned("flag_path 必须以 / 开头且不超过 200 字符"));
        }
    }
    if let Some(url) = &req.judge_server_url {
        let t = trim(url.as_str());
        if !t.as_str().is_empty() && !text_starts_with(url.as_str(), "http://") && !text_starts_with(url.as_str(), "https://") {
            return Err(owned("judge_server_url 必须是 http(s):// 地址或留空"));
        }
    }
    Ok(())
}

/// The change as the settings store takes it.
pub fn settings_patch_of(req: PracticeJudgePatchRequest) -> (p: PracticeJudgeSettingsPatch)
    ensures
        p.enabled == req.enabled,
        p.judge_server_url == req.judge_server_url,
        p.interval_secs == req.interval_secs,
        p.flag_path == req.flag_path,
{
    PracticeJudgeSettingsPatch {
        enabled: req.enabled,
        judge_server_url: req.judge_server_url,
        interval_secs: req.interval_secs,
        flag_path: req.flag_path,
    }
}

/// The text view of settings.
pub open spec fn settings_view(s: PracticeJudgeSettings) -> (bool, Seq<char>, i32, Seq<char>) {
    (s.enabled, s.judge_server_url@, s.interval_secs, s.flag_path@)
}

/// The settings after a change: each present field replaces the stored one.
pub open spec fn patched_settings(base: (bool, Seq<char>, i32, Seq<char>), p: PracticeJudgeSettingsPatch) -> (bool, Seq<char>, i32, Seq<char>) {
    (
        match p.enabled { Some(v) => v, None => base.0 },
        match p.judge_server_url { Some(v) => v@, None => base.1 },
        match p.interval_secs { Some(v) => v, None => base.2 },
        match p.flag_path { Some(v) => v@, None => base.3 },
    )
}

/// Applies a change to the stored settings.
pub fn apply_settings_patch(base: &PracticeJudgeSettings, p: &PracticeJudgeSettingsPatch) -> (s: PracticeJudgeSettings)
    ensures
        settings_view(s) == patched_settings(settings_view(*base), *p),
{
    PracticeJudgeSettings {
        enabled: match p.enabled { Some(v) => v, None => base.enabled },
        judge_server_url: match &p.judge_server_url { Some(v) => owned(v.as_str()), None => owned(base.judge_server_url.as_str()) },
        interval_secs: match p.interval_secs { Some(v) => v, None => base.interval_secs },
        flag_path: match &p.flag_path { Some(v) => owned(v.as_str()), None => owned(base.flag_path.as_str()) },
    }
}

/// Law: an empty change keeps the settings, and applying the same change
/// twice gives what applying it once gives.
pub proof fn law_settings_patch_identity_and_idempotence(base: (bool, Seq<char>, i32, Seq<char>), p: PracticeJudgeSettingsPatch)
    ensures
        patched_settings(base, PracticeJudgeSettingsPatch { enabled: None, judge_server_url: None, interval_secs: None, flag_path: None }) == base,
        patched_settings(patched_settings(base, p), p) == patched_settings(base, p),
{
}

/// The JudgeServer data plane as players see it.
pub struct JudgeEndpointDto {
    pub base_url: String,
    pub flag_url: String,
    pub scope: String,
}

/// The practice JudgeServer's data plane: `http://{host}:{port}`, its
/// `/flag` endpoint, reachable from game boxes only.
pub fn practice_judge_endpoint(data_host: &str) -> (d: JudgeEndpointDto)
    ensures
        d.base_url@ == "http://"@ + data_host@ + ":"@ + dec(PRACTICE_JUDGE_PORT as nat),
        d.flag_url@ == "http://"@ + data_host@ + ":"@ + dec(PRACTICE_JUDGE_PORT as nat) + "/flag"@,
        d.scope@ == "gamebox_internal"@,
{
    let port = u64_decimal(PRACTICE_JUDGE_PORT as u64);
    let base = cat(cat(cat(owned("http://"), data_host), ":"), port.as_str());
    let flag = cat(owned(base.as_str()), "/flag");
    JudgeEndpointDto { base_url: base, flag_url: flag, scope: owned("gamebox_internal") }
}

} // verus!
