//! The CAPTCHA gate. Verification itself is an outbound HTTP call made by
//! the surrounding application; this module holds the decisions around it,
//! and they fail closed: an empty token or a missing secret denies the
//! submission without any request being formed, and anything short of an
//! affirmative `success` field in the provider's response counts as failure.

use vstd::prelude::*;

verus! {

/// Configuration of the verifier: the shared secret presented to the
/// verification endpoint, absent when the deployment has none.
pub struct CaptchaConfig {
    pub secret: Option<String>,
}

/// The form parameters of one outbound verification request.
pub struct CaptchaRequest {
    /// Value of the `secret` form field.
    pub secret: String,
    /// Value of the `response` form field: the client-supplied token.
    pub response: String,
}

/// What to do with a submission's token.
pub enum CaptchaStart {
    /// Fail closed: no request is to be issued, the verdict is `false`.
    Denied,
    /// Issue exactly this request and interpret its response.
    Request(CaptchaRequest),
}

/// The verdict of the whole verification exchange, given whether a secret
/// is configured, the token, and the `success` field parsed from the
/// provider's response (`None` when the call failed or the field was
/// absent or not a boolean).
pub open spec fn captcha_verdict(
    secret_present: bool,
    token: Seq<char>,
    success_field: Option<bool>,
) -> bool {
    secret_present && token.len() > 0 && success_field == Some(true)
}

impl CaptchaConfig {
    pub fn new(secret: Option<String>) -> (c: CaptchaConfig)
        ensures
            c.secret == secret,
    {
        CaptchaConfig { secret }
    }

    /// Decide whether verification may proceed for this token. An empty
    /// token or a missing secret is denied on the spot, with no request.
    pub fn start(&self, token: &str) -> (r: CaptchaStart)
        ensures
            r is Denied <==> (token@.len() == 0 || self.secret is None),
            r matches CaptchaStart::Request(q) ==> {
                &&& self.secret matches Some(s) && q.secret@ == s@
                &&& q.response@ == token@
            },
    {
        if token.is_empty() {
            return CaptchaStart::Denied;
        }
        match &self.secret {
            Option::None => CaptchaStart::Denied,
            Option::Some(s) => CaptchaStart::Request(
                CaptchaRequest { secret: s.clone(), response: token.to_owned() },
            ),
        }
    }
}

/// Interpret the provider's parsed response: the verdict is affirmative
/// exactly when a boolean `success` field was present and true.
pub fn interpret_response(success_field: Option<bool>) -> (r: bool)
    ensures
        r == (success_field == Some(true)),
{
    match success_field {
        Option::Some(true) => true,
        _ => false,
    }
}

/// Law: an empty token is denied outright — no request is formed and the
/// verdict is negative whatever the provider would have answered.
pub proof fn lemma_empty_token_fails(secret_present: bool, success_field: Option<bool>)
    ensures
        !captcha_verdict(secret_present, Seq::<char>::empty(), success_field),
{
}

} // verus!
