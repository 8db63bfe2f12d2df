//! Masking of personal data (e-mail addresses, Korean mobile numbers and
//! resident registration numbers) before a query reaches any model.
use vstd::prelude::*;
use crate::patterns::{regex_replace_all, regex_replaced};

verus! {

/// E-mail addresses.
pub const EMAIL_PATTERN: &'static str = "[a-zA-Z0-9._%+-]+@[a-zA-Z0-9.-]+\\.[a-zA-Z]{2,}";

/// Korean mobile numbers.
pub const PHONE_PATTERN: &'static str = "010-\\d{3,4}-\\d{4}";

/// Korean resident registration numbers.
pub const RRN_PATTERN: &'static str = "\\d{6}-[1-4]\\d{6}";

/// What replacing the matches of `pattern` in `text` by `rep` gives; the
/// text unchanged if the pattern does not compile.
pub open spec fn mask_with(pattern: Seq<char>, text: Seq<char>, rep: Seq<char>) -> Seq<char> {
    match regex_replaced(pattern, text, rep) {
        Some(s) => s,
        None => text,
    }
}

/// `text` with e-mail addresses, then mobile numbers, then registration
/// numbers replaced by their placeholders.
pub open spec fn pii_masked(text: Seq<char>) -> Seq<char> {
    mask_with(
        RRN_PATTERN@,
        mask_with(
            PHONE_PATTERN@,
            mask_with(EMAIL_PATTERN@, text, "[EMAIL_HIDDEN]"@),
            "[PHONE_HIDDEN]"@,
        ),
        "[ID_HIDDEN]"@,
    )
}

fn mask_one(pattern: &str, text: String, rep: &str) -> (r: String)
    ensures
        r@ == mask_with(pattern@, text@, rep@),
{
    match regex_replace_all(pattern, text.as_str(), rep) {
        Some(s) => s,
        None => text,
    }
}

/// The masking service.
pub struct PiiService;

impl PiiService {
    /// Replaces e-mail addresses by `[EMAIL_HIDDEN]`, then mobile numbers by
    /// `[PHONE_HIDDEN]`, then registration numbers by `[ID_HIDDEN]`.
    pub fn mask_pii(text: &str) -> (r: String)
        ensures
            r@ == pii_masked(text@),
    {
        let result = text.to_owned();
        let result = mask_one(EMAIL_PATTERN, result, "[EMAIL_HIDDEN]");
        let result = mask_one(PHONE_PATTERN, result, "[PHONE_HIDDEN]");
        mask_one(RRN_PATTERN, result, "[ID_HIDDEN]")
    }

    /// Masks every kind of sensitive data the service knows of.
    pub fn mask_all_sensitive(text: &str) -> (r: String)
        ensures
            r@ == pii_masked(text@),
    {
        Self::mask_pii(text)
    }
}

/// Masks the personal data in `text`.
pub fn mask_pii(text: &str) -> (r: String)
    ensures
        r@ == pii_masked(text@),
{
    PiiService::mask_pii(text)
}

} // verus!
