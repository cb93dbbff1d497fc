use vstd::prelude::*;
use crate::error::ConvertError;

verus! {

/// Whether the configured slur pattern matches anywhere in the text. A
/// function of the pattern and the text alone.
pub uninterp spec fn slur_match(pattern: Seq<char>, text: Seq<char>) -> bool;

/// The text with every match of the slur pattern replaced by the redaction
/// marker. A function of the pattern and the text alone.
pub uninterp spec fn censored(pattern: Seq<char>, text: Seq<char>) -> Seq<char>;

/// The display rendering of a markdown source. A function of the source
/// alone.
pub uninterp spec fn rendered_html(md: Seq<char>) -> Seq<char>;

/// Relies on `regex::Regex::new` and `Regex::is_match`: compiling and
/// matching are functions of the pattern and the haystack alone. A pattern
/// that does not compile matches nothing.
#[verifier::external_body]
fn pattern_matches(pattern: &str, text: &str) -> (r: bool)
    ensures
        r == slur_match(pattern@, text@),
{
    match regex::Regex::new(pattern) {
        Ok(re) => re.is_match(text),
        Err(_) => false,
    }
}

/// Relies on `regex::Regex::new` and `Regex::replace_all`: replacement is a
/// function of the pattern and the haystack alone. A pattern that does not
/// compile leaves the text unchanged, as does one that matches nowhere.
#[verifier::external_body]
fn pattern_censor(pattern: &str, text: &str) -> (r: String)
    ensures
        r@ == censored(pattern@, text@),
        !slur_match(pattern@, text@) ==> r@ == text@,
{
    match regex::Regex::new(pattern) {
        Ok(re) => re.replace_all(text, "*removed*").to_string(),
        Err(_) => text.to_string(),
    }
}

/// Relies on `comrak::markdown_to_html` with the default options: rendering
/// is a function of the markdown source alone.
#[verifier::external_body]
pub fn markdown_to_html(md: &str) -> (r: String)
    ensures
        r@ == rendered_html(md@),
{
    comrak::markdown_to_html(md, &comrak::Options::default())
}

/// Whether the configured pattern (if any) makes this title prohibited.
pub open spec fn title_blocked(pattern: Option<String>, name: Seq<char>) -> bool {
    match pattern {
        Some(p) => slur_match(p@, name),
        None => false,
    }
}

/// Hard failure policy for titles: a title matching the pattern rejects the
/// whole object. No configured pattern prohibits nothing.
pub fn check_slurs(name: &String, pattern: &Option<String>) -> (r: Result<(), ConvertError>)
    ensures
        r is Ok <==> !title_blocked(*pattern, name@),
        r is Err ==> r == Result::<(), ConvertError>::Err(ConvertError::ProhibitedContent),
{
    match pattern {
        Some(p) => {
            if pattern_matches(p.as_str(), name.as_str()) {
                Err(ConvertError::ProhibitedContent)
            } else {
                Ok(())
            }
        },
        None => Ok(()),
    }
}

/// What body text becomes before persistence: matches of the pattern give
/// way to the redaction marker; with no configured pattern the text stays.
pub open spec fn spec_remove_slurs(pattern: Option<String>, text: Seq<char>) -> Seq<char> {
    match pattern {
        Some(p) => censored(p@, text),
        None => text,
    }
}

/// Soft sanitization policy for bodies: replace, never reject.
pub fn remove_slurs(text: &String, pattern: &Option<String>) -> (r: String)
    ensures
        r@ == spec_remove_slurs(*pattern, text@),
{
    match pattern {
        Some(p) => pattern_censor(p.as_str(), text.as_str()),
        None => text.clone(),
    }
}

} // verus!
