//! Orchestration of the two write operations and the one read operation.
//! Each request is stateless end-to-end: text fields are sanitized, then
//! validated, then the CAPTCHA gate decides, and only then is the store
//! written. The outbound verification call itself is made by the
//! surrounding application between `submit_begin` and `submit_finish`;
//! every decision around it is taken here.

use vstd::prelude::*;
use crate::captcha::{CaptchaConfig, CaptchaStart, CaptchaRequest, captcha_verdict};
use crate::media::{self, MediaDecision, UploadError, kind_of_content_type, filename_wf};
use crate::store::{StoreModel, public_path_spec, filename_wf_some};
use crate::text::{sanitize, sanitize_spec};
use crate::validate::{validate_name, validate_message, valid_name, valid_message};

verus! {

/// Why a submission was turned away.
#[derive(Clone, Copy, Debug, PartialEq, Eq, Structural)]
pub enum SubmitError {
    /// The sanitized name fails validation.
    InvalidName,
    /// The sanitized message fails validation.
    InvalidMessage,
    /// No CAPTCHA token accompanied the submission.
    MissingCaptcha,
    /// Verification was denied or did not come back affirmative.
    CaptchaFailed,
    /// The store reported a failure; nothing of the kind arises in the
    /// model, but the surrounding application maps its driver's errors
    /// here.
    StoreFailure,
}

/// A submission that passed sanitization and validation. Values of this
/// type are only built by `submit_begin`, so holding one is holding the
/// proof that both fields are valid.
pub struct PreparedSubmission {
    name: String,
    message: String,
}

impl PreparedSubmission {
    /// The sanitized name.
    pub closed spec fn name_spec(&self) -> Seq<char> {
        self.name@
    }

    /// The sanitized message.
    pub closed spec fn message_spec(&self) -> Seq<char> {
        self.message@
    }

    /// Both fields pass validation.
    pub open spec fn wf(&self) -> bool {
        valid_name(self.name_spec()) && valid_message(self.message_spec())
    }

    pub fn name(&self) -> (r: &String)
        ensures
            r@ == self.name_spec(),
    {
        &self.name
    }

    pub fn message(&self) -> (r: &String)
        ensures
            r@ == self.message_spec(),
    {
        &self.message
    }
}

/// The first half of a submission: either a terminal rejection, or the
/// verification request the application must now issue.
pub enum SubmitStep {
    /// Terminal; no verification request is formed and the store is not
    /// touched.
    Reject(SubmitError),
    /// Issue `request` to the verification endpoint, then hand its parsed
    /// `success` field and `prepared` to `submit_finish`.
    VerifyCaptcha { prepared: PreparedSubmission, request: CaptchaRequest },
}

/// The rejection, if any, that a submission earns before any outbound
/// call: `name` and `message` are the sanitized fields. Checks run in
/// order — name, message, token presence, secret presence.
pub open spec fn submit_rejection(
    secret_present: bool,
    name: Seq<char>,
    message: Seq<char>,
    token: Seq<char>,
) -> Option<SubmitError> {
    if !valid_name(name) {
        Some(SubmitError::InvalidName)
    } else if !valid_message(message) {
        Some(SubmitError::InvalidMessage)
    } else if token.len() == 0 {
        Some(SubmitError::MissingCaptcha)
    } else if !secret_present {
        Some(SubmitError::CaptchaFailed)
    } else {
        None
    }
}

/// Law: a submission goes through exactly when both sanitized fields are
/// valid and the CAPTCHA exchange verifies — a configured secret, a
/// nonempty token, and an affirmative `success` field.
pub proof fn lemma_submission_gate(
    secret_present: bool,
    name: Seq<char>,
    message: Seq<char>,
    token: Seq<char>,
    success_field: Option<bool>,
)
    ensures
        (submit_rejection(secret_present, name, message, token) is None && success_field == Some(
            true,
        )) <==> (valid_name(name) && valid_message(message) && captcha_verdict(
            secret_present,
            token,
            success_field,
        )),
{
}

/// Sanitize and validate a submission and decide whether verification may
/// proceed. Rejections here are terminal and precede any outbound call.
pub fn submit_begin(captcha: &CaptchaConfig, raw_name: &str, raw_message: &str, token: &str) -> (r:
    SubmitStep)
    ensures
        ({
            let n = sanitize_spec(raw_name@);
            let m = sanitize_spec(raw_message@);
            let rej = submit_rejection(captcha.secret is Some, n, m, token@);
            match r {
                SubmitStep::Reject(e) => rej == Some(e),
                SubmitStep::VerifyCaptcha { prepared, request } => {
                    &&& rej is None
                    &&& prepared.name_spec() == n
                    &&& prepared.message_spec() == m
                    &&& prepared.wf()
                    &&& captcha.secret matches Some(s) && request.secret@ == s@
                    &&& request.response@ == token@
                },
            }
        }),
{
    let name = sanitize(raw_name);
    let message = sanitize(raw_message);
    if validate_name(name.as_str()).is_err() {
        return SubmitStep::Reject(SubmitError::InvalidName);
    }
    if validate_message(message.as_str()).is_err() {
        return SubmitStep::Reject(SubmitError::InvalidMessage);
    }
    match captcha.start(token) {
        CaptchaStart::Denied => {
            if token.is_empty() {
                SubmitStep::Reject(SubmitError::MissingCaptcha)
            } else {
                SubmitStep::Reject(SubmitError::CaptchaFailed)
            }
        },
        CaptchaStart::Request(request) => SubmitStep::VerifyCaptcha {
            prepared: PreparedSubmission { name, message },
            request,
        },
    }
}

/// The intake service: the CAPTCHA configuration and the store model it
/// orchestrates.
pub struct IntakeService {
    pub captcha: CaptchaConfig,
    pub store: StoreModel,
}

impl IntakeService {
    pub open spec fn wf(&self) -> bool {
        self.store.wf()
    }

    /// A fresh service over an empty store.
    pub fn new(secret: Option<String>) -> (s: IntakeService)
        ensures
            s.wf(),
            s.captcha.secret == secret,
            s.store.messages().len() == 0,
            s.store.media().len() == 0,
            s.store.next_stamp() == 0,
    {
        IntakeService { captcha: CaptchaConfig::new(secret), store: StoreModel::new() }
    }

    /// The second half of a submission: interpret the verification
    /// response and, only on an affirmative one, persist the prepared
    /// fields.
    pub fn submit_finish(&mut self, prepared: PreparedSubmission, captcha_success: Option<
        bool,
    >) -> (r: Result<(), SubmitError>)
        requires
            old(self).wf(),
            prepared.wf(),
            old(self).store.next_stamp() < u64::MAX,
        ensures
            final(self).wf(),
            final(self).captcha == old(self).captcha,
            final(self).store.media() == old(self).store.media(),
            captcha_success != Some(true) ==> {
                &&& r == Err::<(), SubmitError>(SubmitError::CaptchaFailed)
                &&& final(self).store.messages() == old(self).store.messages()
                &&& final(self).store.next_stamp() == old(self).store.next_stamp()
            },
            captcha_success == Some(true) ==> {
                &&& r is Ok
                &&& final(self).store.messages().len() == old(self).store.messages().len() + 1
                &&& final(self).store.messages().drop_last() == old(self).store.messages()
                &&& final(self).store.messages().last().name@ == prepared.name_spec()
                &&& final(self).store.messages().last().message@ == prepared.message_spec()
                &&& final(self).store.messages().last().created_at == old(self).store.next_stamp()
                &&& final(self).store.next_stamp() == old(self).store.next_stamp() + 1
            },
    {
        if crate::captcha::interpret_response(captcha_success) {
            let PreparedSubmission { name, message } = prepared;
            self.store.insert_message(name, message);
            proof {
                assert(self.store.messages().drop_last() =~= old(self).store.messages());
            }
            Ok(())
        } else {
            Err(SubmitError::CaptchaFailed)
        }
    }

    /// Submit a message end-to-end against the model store.
    /// `captcha_success` stands for the `success` field the verification
    /// provider would answer with; it is consulted only when the checks
    /// before the outbound call all pass.
    pub fn submit_message(
        &mut self,
        raw_name: &str,
        raw_message: &str,
        token: &str,
        captcha_success: Option<bool>,
    ) -> (r: Result<(), SubmitError>)
        requires
            old(self).wf(),
            old(self).store.next_stamp() < u64::MAX,
        ensures
            final(self).wf(),
            final(self).captcha == old(self).captcha,
            final(self).store.media() == old(self).store.media(),
            ({
                let n = sanitize_spec(raw_name@);
                let m = sanitize_spec(raw_message@);
                let rej = submit_rejection(old(self).captcha.secret is Some, n, m, token@);
                match rej {
                    Some(e) => {
                        &&& r == Err::<(), SubmitError>(e)
                        &&& final(self).store.messages() == old(self).store.messages()
                        &&& final(self).store.next_stamp() == old(self).store.next_stamp()
                    },
                    None => if captcha_success == Some(true) {
                        &&& r is Ok
                        &&& final(self).store.messages().len() == old(
                            self,
                        ).store.messages().len() + 1
                        &&& final(self).store.messages().drop_last() == old(
                            self,
                        ).store.messages()
                        &&& final(self).store.messages().last().name@ == n
                        &&& final(self).store.messages().last().message@ == m
                        &&& final(self).store.messages().last().created_at == old(
                            self,
                        ).store.next_stamp()
                        &&& final(self).store.next_stamp() == old(self).store.next_stamp() + 1
                    } else {
                        &&& r == Err::<(), SubmitError>(SubmitError::CaptchaFailed)
                        &&& final(self).store.messages() == old(self).store.messages()
                        &&& final(self).store.next_stamp() == old(self).store.next_stamp()
                    },
                }
            }),
    {
        let step = submit_begin(&self.captcha, raw_name, raw_message, token);
        match step {
            SubmitStep::Reject(e) => Err(e),
            SubmitStep::VerifyCaptcha { prepared, request: _ } => self.submit_finish(
                prepared,
                captcha_success,
            ),
        }
    }

    /// Upload an image end-to-end against the model store: apply the
    /// acceptance policy and record the accepted filename.
    pub fn upload_image(&mut self, field_name: &str, content_type: &str, bytes: &Vec<u8>) -> (r:
        MediaDecision)
        requires
            old(self).wf(),
            old(self).store.next_stamp() < u64::MAX,
        ensures
            final(self).wf(),
            final(self).captcha == old(self).captcha,
            final(self).store.messages() == old(self).store.messages(),
            r is Ignored <==> field_name@ != "image"@,
            r == MediaDecision::Rejected(UploadError::UnsupportedType) <==> (field_name@
                == "image"@ && kind_of_content_type(content_type@) is None),
            r == MediaDecision::Rejected(UploadError::TooLarge) <==> (field_name@ == "image"@
                && kind_of_content_type(content_type@) is Some && bytes@.len()
                > media::MAX_IMAGE_BYTES),
            r is Accepted <==> (field_name@ == "image"@ && kind_of_content_type(
                content_type@,
            ) is Some && bytes@.len() <= media::MAX_IMAGE_BYTES),
            !(r is Accepted) ==> {
                &&& final(self).store.media() == old(self).store.media()
                &&& final(self).store.next_stamp() == old(self).store.next_stamp()
            },
            r matches MediaDecision::Accepted { filename, kind } ==> {
                &&& Some(kind) == kind_of_content_type(content_type@)
                &&& filename_wf(filename@, kind)
                &&& final(self).store.media().len() == old(self).store.media().len() + 1
                &&& final(self).store.media().drop_last() == old(self).store.media()
                &&& final(self).store.media().last().filename@ == filename@
                &&& final(self).store.media().last().created_at == old(self).store.next_stamp()
                &&& final(self).store.next_stamp() == old(self).store.next_stamp() + 1
            },
    {
        let decision = media::accept(field_name, content_type, bytes);
        match decision {
            MediaDecision::Accepted { filename, kind } => {
                proof {
                    assert(filename_wf_some(filename@));
                }
                let stored = filename.clone();
                self.store.insert_media(stored);
                proof {
                    assert(self.store.media().drop_last() =~= old(self).store.media());
                }
                MediaDecision::Accepted { filename, kind }
            },
            other => other,
        }
    }

    /// All stored media as public paths, most recent first.
    pub fn list_images(&self) -> (r: Vec<String>)
        ensures
            r@.len() == self.store.media().len(),
            forall|i: int|
                0 <= i < r@.len() ==> (#[trigger] r@[i])@ == public_path_spec(
                    self.store.media()[self.store.media().len() - 1 - i].filename@,
                ),
    {
        self.store.list_media_paths()
    }
}

} // verus!
