//! Authentication of the practice JudgeServer's internal calls: a bearer
//! token equal to the token derived from the platform secret.

use vstd::prelude::*;
use vstd::string::*;

use crate::awdp_ident::{judge_token_text, practice_judge_token};
use crate::text::{from_chars, sub_chars, to_chars};

verus! {

/// Proof that an internal call carried the practice JudgeServer's token.
#[derive(Debug, PartialEq, Eq)]
pub struct PracticeJudgeInternalAuth {
    _private: (),
}

/// Why an internal call was refused.
#[derive(Debug, Clone, Copy, PartialEq, Eq, Structural)]
pub enum PracticeJudgeAuthError {
    MissingToken,
    InvalidToken,
    ConfigMissing,
}

/// Message of a refusal.
pub open spec fn auth_error_text(e: PracticeJudgeAuthError) -> Seq<char> {
    match e {
        PracticeJudgeAuthError::MissingToken => "Missing or invalid Authorization header"@,
        PracticeJudgeAuthError::InvalidToken => "Unauthorized"@,
        PracticeJudgeAuthError::ConfigMissing => "AppConfig not available"@,
    }
}

impl PracticeJudgeAuthError {
    /// The message of the refusal.
    pub fn message(&self) -> (s: &'static str)
        ensures
            s@ == auth_error_text(*self),
    {
        match self {
            PracticeJudgeAuthError::MissingToken => "Missing or invalid Authorization header",
            PracticeJudgeAuthError::InvalidToken => "Unauthorized",
            PracticeJudgeAuthError::ConfigMissing => "AppConfig not available",
        }
    }

    /// Every refusal is answered `401 Unauthorized`.
    pub fn status_code(&self) -> (c: u16)
        ensures
            c == 401,
    {
        401
    }
}

/// Byte comparison whose running time depends only on the lengths.
pub fn constant_time_eq(left: &[u8], right: &[u8]) -> (b: bool)
    ensures
        b == (left@ == right@),
{
    if left.len() != right.len() {
        return false;
    }
    let mut diff: u8 = 0;
    let mut i: usize = 0;
    while i < left.len()
        invariant
            left@.len() == right@.len(),
            i <= left@.len(),
            (diff == 0) == (forall|k: int| 0 <= k < i ==> left@[k] == right@[k]),
        decreases left@.len() - i,
    {
        let l = left[i];
        let r = right[i];
        let d = diff;
        assert(((d | (l ^ r)) == 0) == (d == 0 && l == r)) by (bit_vector);
        diff = d | (l ^ r);
        i = i + 1;
    }
    assert(diff == 0 ==> left@ =~= right@);
    diff == 0
}

/// The bearer token of an `Authorization` header (text after `Bearer `).
pub open spec fn bearer_of(header: Option<Seq<char>>) -> Option<Seq<char>> {
    match header {
        Some(h) => if h.len() >= 7 && h.subrange(0, 7) == "Bearer "@ {
            Some(h.subrange(7, h.len() as int))
        } else {
            None
        },
        None => None,
    }
}

/// The bearer token of an `Authorization` header, if it has that form.
pub fn bearer_token(header: Option<&str>) -> (t: Option<String>)
    ensures
        match bearer_of(match header { Some(h) => Some(h@), None => None }) {
            Some(x) => t matches Some(s) && s@ == x,
            None => t is None,
        },
{
    proof {
        reveal_strlit("Bearer ");
    }
    match header {
        None => None,
        Some(h) => {
            let cs = to_chars(h);
            if cs.len() < 7 {
                return None;
            }
            let head = sub_chars(cs.as_slice(), 0, 7);
            let want = ['B', 'e', 'a', 'r', 'e', 'r', ' '];
            let ok = head[0] == want[0] && head[1] == want[1] && head[2] == want[2] && head[3] == want[3]
                && head[4] == want[4] && head[5] == want[5] && head[6] == want[6];
            proof {
                if ok {
                    assert(head@ =~= "Bearer "@);
                } else {
                    assert(head@ != "Bearer "@) by {
                        if head@ == "Bearer "@ {
                            assert(head@[0] == 'B' && head@[1] == 'e' && head@[2] == 'a' && head@[3] == 'r');
                        }
                    }
                }
            }
            if !ok {
                return None;
            }
            let rest = sub_chars(cs.as_slice(), 7, cs.len());
            Some(from_chars(rest.as_slice()))
        },
    }
}

/// Decision on an internal call: a missing bearer token, then a missing
/// platform secret, then a token other than the derived one are refused.
pub open spec fn auth_decision(token: Option<Seq<char>>, secret: Option<Seq<u8>>) -> Option<PracticeJudgeAuthError> {
    match token {
        None => Some(PracticeJudgeAuthError::MissingToken),
        Some(t) => match secret {
            None => Some(PracticeJudgeAuthError::ConfigMissing),
            Some(k) => if t == judge_token_text(k) {
                None
            } else {
                Some(PracticeJudgeAuthError::InvalidToken)
            },
        },
    }
}

/// Authenticates an internal call of the practice JudgeServer (the
/// `Authorization` header and the platform secret, when configured).
pub fn check_practice_judge_auth(authorization: Option<&str>, jwt_secret: Option<&[u8]>) -> (r: Result<PracticeJudgeInternalAuth, PracticeJudgeAuthError>)
    ensures
        match auth_decision(
            bearer_of(match authorization { Some(h) => Some(h@), None => None }),
            match jwt_secret { Some(k) => Some(k@), None => None },
        ) {
            None => r is Ok,
            Some(e) => r == Err::<PracticeJudgeInternalAuth, PracticeJudgeAuthError>(e),
        },
{
    let token = match bearer_token(authorization) {
        Some(t) => t,
        None => return Err(PracticeJudgeAuthError::MissingToken),
    };
    let secret = match jwt_secret {
        Some(k) => k,
        None => return Err(PracticeJudgeAuthError::ConfigMissing),
    };
    let expected = practice_judge_token(secret);
    let same = constant_time_eq(token.as_str().as_bytes(), expected.as_str().as_bytes());
    proof {
        vstd::utf8::encode_utf8_decode_utf8(token@);
        vstd::utf8::encode_utf8_decode_utf8(expected@);
    }
    if same {
        Ok(PracticeJudgeInternalAuth { _private: () })
    } else {
        Err(PracticeJudgeAuthError::InvalidToken)
    }
}

/// Law: with the platform secret available, a call is accepted exactly when
/// it carries `Bearer ` followed by the token derived from that secret.
pub proof fn law_accepts_only_derived_token(header: Seq<char>, secret: Seq<u8>)
    ensures
        auth_decision(bearer_of(Some(header)), Some(secret)) is None
            <==> header == "Bearer "@ + judge_token_text(secret),
{
    reveal_strlit("Bearer ");
    let t = judge_token_text(secret);
    if header == "Bearer "@ + t {
        assert(header.subrange(0, 7) =~= "Bearer "@);
        assert(header.subrange(7, header.len() as int) =~= t);
    }
    if auth_decision(bearer_of(Some(header)), Some(secret)) is None {
        assert(header =~= header.subrange(0, 7) + header.subrange(7, header.len() as int));
    }
}

} // verus!
