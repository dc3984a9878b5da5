//! Trusted wrappers around the HTML-selector and regular-expression engines.
//!
//! Both engines compute pure functions of their text arguments; the results
//! are given names here, and the site modules state their contracts over
//! those names.
use vstd::prelude::*;

verus! {

/// Whether `selector` is a valid CSS selector, as decided by
/// `scraper::Selector::parse`.
pub uninterp spec fn css_selector_valid(selector: Seq<char>) -> bool;

/// The values of attribute `attr` on the elements of `html` selected by
/// `selector`, in document order, as collected by `scraper`.
pub uninterp spec fn selected_attr_values(
    html: Seq<char>,
    selector: Seq<char>,
    attr: Seq<char>,
) -> Seq<Seq<char>>;

/// Relies on scraper: `Html::parse_document` builds a tree that is a function
/// of the document text alone, `Selector::parse` accepts exactly the valid
/// CSS selector strings, and `select` walks the matching elements in document
/// order. The collected values of the named attribute therefore depend on the
/// three arguments alone; `None` comes exactly when the selector is invalid.
#[verifier::external_body]
pub(crate) fn select_attr_values(html: &str, selector: &str, attr: &str) -> (r: Option<
    Vec<String>,
>)
    ensures
        r is Some <==> css_selector_valid(selector@),
        r matches Some(v) ==> v.deep_view() == selected_attr_values(html@, selector@, attr@),
{
    let parsed = match scraper::Selector::parse(selector) {
        Ok(s) => s,
        Err(_) => {
            return None;
        },
    };
    let document = scraper::Html::parse_document(html);
    Some(
        document.select(&parsed).filter_map(
            |element| element.value().attr(attr).map(|value| value.to_string()),
        ).collect(),
    )
}

/// Whether `pattern` is a valid regular expression, as decided by
/// `regex::Regex::new`.
pub uninterp spec fn regex_pattern_valid(pattern: Seq<char>) -> bool;

/// The text of capture group 1 of the leftmost match of `pattern` in `text`,
/// as found by `regex`, or `None` when the pattern does not match (or has no
/// group 1 in the match).
pub uninterp spec fn regex_first_capture(pattern: Seq<char>, text: Seq<char>) -> Option<Seq<char>>;

/// Relies on regex: `Regex::new` accepts exactly the valid patterns, and
/// `Regex::captures` finds the leftmost match, a function of the pattern and
/// the text alone. The outer `None` comes exactly when the pattern is
/// invalid; the inner option is group 1 of the leftmost match.
#[verifier::external_body]
pub(crate) fn regex_capture_first(pattern: &str, text: &str) -> (r: Option<Option<String>>)
    ensures
        r is Some <==> regex_pattern_valid(pattern@),
        r matches Some(c) ==> (c is Some <==> regex_first_capture(pattern@, text@) is Some),
        r matches Some(c) ==> (c matches Some(s) ==> regex_first_capture(pattern@, text@) == Some(
            s@,
        )),
{
    let re = match regex::Regex::new(pattern) {
        Ok(re) => re,
        Err(_) => {
            return None;
        },
    };
    Some(re.captures(text).and_then(|caps| caps.get(1)).map(|m| m.as_str().to_string()))
}

} // verus!
