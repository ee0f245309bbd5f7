//! AWD-Plus identities: scoring idempotency keys, deterministic Break flags,
//! per-event network / container / worker / ACL names, and the practice judge
//! token.

use vstd::prelude::*;

use crate::digest::{hkdf_sha256_32, hkdf_sha256_okm32, hmac_sha256, hmac_sha256_of, sha256, sha256_of};
use crate::text::{cat, from_chars, hex128, hex_encode, hex_lower, owned, sub_chars, to_chars, uuid_string, uuid_text};

verus! {

/// Text of the single owner of a score: `user:{id}` or `team:{id}`.
pub open spec fn subject_text(user_id: Option<u128>, team_id: Option<u128>) -> Seq<char> {
    match (user_id, team_id) {
        (Some(u), None) => "user:"@ + uuid_text(u),
        (None, Some(t)) => "team:"@ + uuid_text(t),
        _ => Seq::empty(),
    }
}

/// Exactly one of the two owners is given.
pub open spec fn one_owner(user_id: Option<u128>, team_id: Option<u128>) -> bool {
    user_id is Some != team_id is Some
}

/// Subject key of a score owner: `user:{id}` or `team:{id}`.
pub fn subject_key(user_id: Option<u128>, team_id: Option<u128>) -> (s: String)
    requires
        one_owner(user_id, team_id),
    ensures
        s@ == subject_text(user_id, team_id),
{
    match (user_id, team_id) {
        (Some(u), None) => {
            let id = uuid_string(u);
            cat(owned("user:"), id.as_str())
        },
        (None, Some(t)) => {
            let id = uuid_string(t);
            cat(owned("team:"), id.as_str())
        },
        _ => {
            assert(false);
            String::new()
        },
    }
}

/// Break idempotency key: `awdp:break:{run}:{gamebox}:{subject}` (one break score
/// per subject and gamebox in a run).
pub open spec fn break_key_text(run_id: u128, gamebox_id: u128, user_id: Option<u128>, team_id: Option<u128>) -> Seq<
    char,
> {
    "awdp:break:"@ + uuid_text(run_id) + ":"@ + uuid_text(gamebox_id) + ":"@ + subject_text(user_id, team_id)
}

/// Fix idempotency key: `awdp:fix:{run}:{fix_round}:{instance}` (one fix score
/// per instance and round).
pub open spec fn fix_key_text(run_id: u128, fix_round_id: u128, instance_id: u128) -> Seq<char> {
    "awdp:fix:"@ + uuid_text(run_id) + ":"@ + uuid_text(fix_round_id) + ":"@ + uuid_text(instance_id)
}

/// Break idempotency key.
pub fn break_idempotency_key(run_id: u128, gamebox_id: u128, user_id: Option<u128>, team_id: Option<u128>) -> (s: String)
    requires
        one_owner(user_id, team_id),
    ensures
        s@ == break_key_text(run_id, gamebox_id, user_id, team_id),
{
    let r = uuid_string(run_id);
    let g = uuid_string(gamebox_id);
    let subj = subject_key(user_id, team_id);
    let s = cat(cat(cat(owned("awdp:break:"), r.as_str()), ":"), g.as_str());
    cat(cat(s, ":"), subj.as_str())
}

/// Fix idempotency key.
pub fn fix_idempotency_key(run_id: u128, fix_round_id: u128, instance_id: u128) -> (s: String)
    ensures
        s@ == fix_key_text(run_id, fix_round_id, instance_id),
{
    let r = uuid_string(run_id);
    let f = uuid_string(fix_round_id);
    let i = uuid_string(instance_id);
    let s = cat(cat(cat(owned("awdp:fix:"), r.as_str()), ":"), f.as_str());
    cat(cat(s, ":"), i.as_str())
}

proof fn lemma_uuid_text_len(v: u128)
    ensures
        uuid_text(v).len() == 36,
{
}

/// A user's break key and a team's break key never coincide, and no break key
/// coincides with a fix key.
pub proof fn law_keys_separate_owners_and_kinds(run: u128, gamebox: u128, user: u128, team: u128, round: u128, inst: u128)
    ensures
        break_key_text(run, gamebox, Some(user), None) != break_key_text(run, gamebox, None, Some(team)),
        break_key_text(run, gamebox, Some(user), None) != fix_key_text(run, round, inst),
        break_key_text(run, gamebox, None, Some(team)) != fix_key_text(run, round, inst),
{
    reveal_strlit("awdp:break:");
    reveal_strlit("awdp:fix:");
    reveal_strlit(":");
    reveal_strlit("user:");
    reveal_strlit("team:");
    lemma_uuid_text_len(run);
    lemma_uuid_text_len(gamebox);
    let ku = break_key_text(run, gamebox, Some(user), None);
    let kt = break_key_text(run, gamebox, None, Some(team));
    let kf = fix_key_text(run, round, inst);
    assert(ku[85] == 'u');
    assert(kt[85] == 't');
    assert(ku[5] == 'b');
    assert(kt[5] == 'b');
    assert(kf[5] == 'f');
}

/// The per-run flag key: HKDF-SHA256 of the platform secret, salted with
/// `floatctf-awdp-flag`, with the run id text as info.
pub open spec fn run_flag_key(secret: Seq<u8>, run_id_text: Seq<char>) -> Seq<u8> {
    hkdf_sha256_okm32(vstd::utf8::encode_utf8("floatctf-awdp-flag"@), secret, vstd::utf8::encode_utf8(run_id_text))
}

/// What a Break flag authenticates: `awdp:{run}:{gamebox}:{subject}`.
pub open spec fn flag_input(run_id: u128, gamebox_id: u128, user_id: Option<u128>, team_id: Option<u128>) -> Seq<char> {
    "awdp:"@ + uuid_text(run_id) + ":"@ + uuid_text(gamebox_id) + ":"@ + subject_text(user_id, team_id)
}

/// The Break flag: `{prefix}{<first 16 bytes of the HMAC, in hex>}`.
pub open spec fn flag_text(
    secret: Seq<u8>,
    run_id: u128,
    gamebox_id: u128,
    user_id: Option<u128>,
    team_id: Option<u128>,
    prefix: Seq<char>,
) -> Seq<char> {
    let key = run_flag_key(secret, uuid_text(run_id));
    let tag = hmac_sha256_of(key, vstd::utf8::encode_utf8(flag_input(run_id, gamebox_id, user_id, team_id)));
    prefix + "{"@ + hex_lower(tag.subrange(0, 16)) + "}"@
}

/// Derives the per-run flag HMAC key from the platform secret (HKDF-SHA256, 32 bytes).
pub fn derive_run_flag_key(jwt_secret: &[u8], run_id: &str) -> (k: Vec<u8>)
    ensures
        k@ == run_flag_key(jwt_secret@, run_id@),
        k@.len() == 32,
{
    let salt = "floatctf-awdp-flag";
    hkdf_sha256_32(salt.as_bytes(), jwt_secret, run_id.as_bytes())
}

/// Deterministic Break flag bound to run × gamebox × participant: stable across
/// resets, different for every participant.
pub fn awdp_flag(
    jwt_secret: &[u8],
    run_id: u128,
    gamebox_id: u128,
    user_id: Option<u128>,
    team_id: Option<u128>,
    prefix: &str,
) -> (f: String)
    requires
        one_owner(user_id, team_id),
    ensures
        f@ == flag_text(jwt_secret@, run_id, gamebox_id, user_id, team_id, prefix@),
        f@.len() == prefix@.len() + 34,
{
    proof {
        reveal_strlit("{");
        reveal_strlit("}");
    }
    let run_text = uuid_string(run_id);
    let key = derive_run_flag_key(jwt_secret, run_text.as_str());
    let g = uuid_string(gamebox_id);
    let subj = subject_key(user_id, team_id);
    let input = cat(cat(cat(cat(cat(owned("awdp:"), run_text.as_str()), ":"), g.as_str()), ":"), subj.as_str());
    let tag = hmac_sha256(key.as_slice(), input.as_str().as_bytes());
    let mut first: Vec<u8> = Vec::new();
    let mut i: usize = 0;
    while i < 16
        invariant
            0 <= i <= 16,
            tag@.len() == 32,
            first@ == tag@.subrange(0, i as int),
        decreases 16 - i,
    {
        first.push(tag[i]);
        i = i + 1;
    }
    let body = hex_encode(first.as_slice());
    cat(cat(cat(owned(prefix), "{"), body.as_str()), "}")
}

/// Stored hash of a flag: lowercase hex SHA-256 of its UTF-8 bytes.
pub open spec fn flag_hash_text(flag: Seq<char>) -> Seq<char> {
    hex_lower(sha256_of(vstd::utf8::encode_utf8(flag)))
}

/// Hash under which a flag is stored (64 hex digits).
pub fn hash_flag(flag: &str) -> (h: String)
    ensures
        h@ == flag_hash_text(flag@),
        h@.len() == 64,
{
    let d = sha256(flag.as_bytes());
    hex_encode(d.as_slice())
}

/// Docker network shared by all practice gameboxes and the practice JudgeServer.
pub const PRACTICE_NETWORK_NAME: &'static str = "fctf-awdp-practice";

/// Practice control-plane network (JudgeServer only).
pub const CONTROL_NETWORK_NAME: &'static str = "fctf-awdp-control";

/// Dynamic address pool of practice gamebox instances.
pub const PRACTICE_DYNAMIC_POOL: &'static str = "10.42.3.0/24";

/// JudgeServer data-plane port.
pub const PRACTICE_JUDGE_PORT: u16 = 80;

/// DNS alias of the JudgeServer on a data network.
pub const JUDGE_DATA_ALIAS: &'static str = "judge-server";

/// Container name of the practice JudgeServer.
pub const PRACTICE_JUDGE_CONTAINER_NAME: &'static str = "fctf-awdp-practice-judge";

/// nftables table of the practice ACL.
pub const PRACTICE_ACL_TABLE_NAME: &'static str = "floatctf_awdp_practice";

/// Name of the practice network.
pub fn practice_network_name() -> (s: &'static str)
    ensures
        s@ == "fctf-awdp-practice"@,
{
    PRACTICE_NETWORK_NAME
}

/// The first `n` hex digits of an id (its hyphen-free text).
pub open spec fn id_prefix(id: u128, n: int) -> Seq<char> {
    hex128(id).subrange(0, n)
}

fn uuid_hex_prefix(id: u128, n: usize) -> (s: String)
    requires
        n == 8 || n == 12,
    ensures
        s@ == id_prefix(id, n as int),
{
    let t = uuid_string(id);
    let cs = to_chars(t.as_str());
    assert(cs@.len() == 36);
    let head = sub_chars(cs.as_slice(), 0, 8);
    assert(head@ =~= hex128(id).subrange(0, 8));
    if n == 8 {
        from_chars(head.as_slice())
    } else {
        let tail = sub_chars(cs.as_slice(), 9, 13);
        assert(tail@ =~= hex128(id).subrange(8, 12));
        let mut all = head;
        let mut more = tail;
        all.append(&mut more);
        assert(all@ =~= hex128(id).subrange(0, 12));
        from_chars(all.as_slice())
    }
}

/// Docker network of an event: `fctf-awdp-{first 12 hex digits of the id}`.
pub fn event_network_name(event_id: u128) -> (s: String)
    ensures
        s@ == "fctf-awdp-"@ + id_prefix(event_id, 12),
{
    let p = uuid_hex_prefix(event_id, 12);
    cat(owned("fctf-awdp-"), p.as_str())
}

/// Whether an event is the practice event.
pub fn is_practice_event(event_id: u128, practice_event_id: u128) -> (b: bool)
    ensures
        b == (event_id == practice_event_id),
{
    event_id == practice_event_id
}

/// JudgeServer container of an event: the fixed practice name for the practice
/// event, else `fctf-awdp-judge-{first 12 hex digits of the id}`.
pub fn event_judge_container_name(event_id: u128, practice_event_id: u128) -> (s: String)
    ensures
        event_id == practice_event_id ==> s@ == "fctf-awdp-practice-judge"@,
        event_id != practice_event_id ==> s@ == "fctf-awdp-judge-"@ + id_prefix(event_id, 12),
{
    if is_practice_event(event_id, practice_event_id) {
        return owned(PRACTICE_JUDGE_CONTAINER_NAME);
    }
    let p = uuid_hex_prefix(event_id, 12);
    cat(owned("fctf-awdp-judge-"), p.as_str())
}

/// JudgeServer worker id of an event: `practice-judge-{first 8 hex digits}`.
pub fn event_judge_worker_id(event_id: u128) -> (s: String)
    ensures
        s@ == "practice-judge-"@ + id_prefix(event_id, 8),
{
    let p = uuid_hex_prefix(event_id, 8);
    cat(owned("practice-judge-"), p.as_str())
}

/// nftables table of an event: `floatctf_awdp_{first 8 hex digits}`; it never
/// holds a `-` (nftables names accept only `_`).
pub fn event_acl_table_name(event_id: u128) -> (s: String)
    ensures
        s@ == "floatctf_awdp_"@ + id_prefix(event_id, 8),
        forall|i: int| 0 <= i < s@.len() ==> s@[i] != '-',
{
    proof {
        reveal_strlit("floatctf_awdp_");
    }
    let p = uuid_hex_prefix(event_id, 8);
    cat(owned("floatctf_awdp_"), p.as_str())
}

/// The practice judge token: hex of 32 HKDF-SHA256 bytes of the platform
/// secret, salted with `floatctf-awdp-practice-judge`, info `internal-token`.
pub open spec fn judge_token_text(secret: Seq<u8>) -> Seq<char> {
    hex_lower(
        hkdf_sha256_okm32(
            vstd::utf8::encode_utf8("floatctf-awdp-practice-judge"@),
            secret,
            vstd::utf8::encode_utf8("internal-token"@),
        ),
    )
}

/// Internal token of the practice JudgeServer (64 lowercase hex digits).
pub fn practice_judge_token(jwt_secret: &[u8]) -> (t: String)
    ensures
        t@ == judge_token_text(jwt_secret@),
        t@.len() == 64,
        forall|i: int| 0 <= i < t@.len() ==> ('0' <= #[trigger] t@[i] <= '9' || 'a' <= t@[i] <= 'f'),
{
    let salt = "floatctf-awdp-practice-judge";
    let info = "internal-token";
    let key = hkdf_sha256_32(salt.as_bytes(), jwt_secret, info.as_bytes());
    hex_encode(key.as_slice())
}

} // verus!
