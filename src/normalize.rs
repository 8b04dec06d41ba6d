//! The Text Normalizer: removes a boilerplate apology clause from alert text.
use vstd::prelude::*;
use crate::text::{trim_of, trim_str};

verus! {

/// An apology clause ("We apologize ..." or "We regret ...") with its filler
/// words and whatever follows on its line.
pub const APOLOGY_PATTERN: &'static str =
    r"We (apologize|regret) (for )?(the|this|any)?( )?(inconvenience)( )?(this )?(may )?(have|has)?( )?(caused)?(.*\.?)";

/// Whether `APOLOGY_PATTERN` matches somewhere in the text.
pub uninterp spec fn has_apology(s: Seq<char>) -> bool;

/// The text with the first match of `APOLOGY_PATTERN` removed.
pub uninterp spec fn apology_removed(s: Seq<char>) -> Seq<char>;

/// Relies on regex's `Regex::new` and `Regex::is_match`: whether the pattern
/// matches anywhere in the text. The pattern is a valid constant, so it
/// compiles.
#[verifier::external_body]
fn find_apology(s: &str) -> (r: bool)
    ensures
        r == has_apology(s@),
{
    match regex::Regex::new(APOLOGY_PATTERN) {
        Ok(re) => re.is_match(s),
        Err(_) => false,
    }
}

/// Relies on regex's `Regex::new` and `Regex::replacen` with a limit of one:
/// the leftmost match is replaced by the empty string.
#[verifier::external_body]
fn remove_apology(s: &str) -> (r: String)
    ensures
        r@ == apology_removed(s@),
{
    match regex::Regex::new(APOLOGY_PATTERN) {
        Ok(re) => re.replacen(s, 1, "").into_owned(),
        Err(_) => s.to_string(),
    }
}

/// The normalized form of an alert text: the first apology clause removed,
/// then surrounding white space trimmed.
pub open spec fn normalized(s: Seq<char>) -> Seq<char> {
    if has_apology(s) {
        trim_of(apology_removed(s))
    } else {
        trim_of(s)
    }
}

/// Text that holds no apology clause and no surrounding white space.
pub open spec fn is_clean(s: Seq<char>) -> bool {
    !has_apology(s) && trim_of(s) == s
}

/// Strips the first boilerplate apology clause and trims the result. The
/// result may be empty, which means the alert has no content.
pub fn normalize_alert_text(s: &str) -> (r: String)
    ensures
        r@ == normalized(s@),
{
    if find_apology(s) {
        let removed = remove_apology(s);
        trim_str(removed.as_str())
    } else {
        trim_str(s)
    }
}

/// Normalizing text that is already clean leaves it as it is, so normalizing
/// it twice gives what normalizing once gives.
pub proof fn lemma_normalize_idempotent_on_clean(s: Seq<char>)
    requires
        is_clean(s),
    ensures
        normalized(s) == s,
        normalized(normalized(s)) == normalized(s),
{
}

} // verus!
