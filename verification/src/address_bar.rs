//! Address bar: the URL text, its loading and focus state, and the
//! classification of what the user typed.
use vstd::prelude::*;
use crate::text::{
    char_alphanumeric, chars_of, contains_char, contains_seq, find_seq, has_prefix,
    is_alphanumeric, law_trim_idempotent, slice_chars, starts_with, string_from_chars, trim,
    trim_chars,
};

verus! {

/// Result of URL validation.
#[derive(Debug, PartialEq, Eq)]
pub enum UrlValidationResult {
    /// Valid URL with normalized form.
    Valid(String),
    /// Invalid URL with error message.
    Invalid(String),
    /// Search query to be sent to the default search engine.
    SearchQuery(String),
}

/// The meaning of a URL validation result.
pub enum UrlCheck {
    Valid(Seq<char>),
    Invalid(Seq<char>),
    SearchQuery(Seq<char>),
}

impl UrlValidationResult {
    /// The meaning of this result.
    pub open spec fn check(&self) -> UrlCheck {
        match self {
            UrlValidationResult::Valid(s) => UrlCheck::Valid(s@),
            UrlValidationResult::Invalid(s) => UrlCheck::Invalid(s@),
            UrlValidationResult::SearchQuery(s) => UrlCheck::SearchQuery(s@),
        }
    }
}

/// A character that may appear in an address typed without a scheme.
pub open spec fn address_char(c: char) -> bool {
    char_alphanumeric(c) || c == '.' || c == '-' || c == '_' || c == '/' || c == ':'
}

/// How the address bar classifies typed text: empty text is invalid; text
/// with an http(s) scheme is valid when a dot follows the scheme; text with a
/// dot, no space and only address characters becomes an https URL; text
/// with "://" or starting with "www." is malformed; anything else is a
/// search query.  The text is trimmed first.
pub open spec fn validate_url_spec(input: Seq<char>) -> UrlCheck {
    let t = trim(input);
    if t.len() == 0 {
        UrlCheck::Invalid("Empty URL"@)
    } else if starts_with(t, "http://"@) || starts_with(t, "https://"@) {
        let after = if starts_with(t, "https://"@) {
            t.subrange(8, t.len() as int)
        } else {
            t.subrange(7, t.len() as int)
        };
        if after.len() == 0 || !after.contains('.') {
            UrlCheck::Invalid("Invalid domain"@)
        } else {
            UrlCheck::Valid(t)
        }
    } else if t.contains('.') && !t.contains(' ') && (forall|i: int|
        0 <= i < t.len() ==> address_char(#[trigger] t[i])) {
        UrlCheck::Valid("https://"@ + t)
    } else if contains_seq(t, "://"@) || starts_with(t, "www."@) {
        UrlCheck::Invalid("Malformed URL"@)
    } else {
        UrlCheck::SearchQuery(t)
    }
}

/// Classifying typed text gives the same answer as classifying the text
/// with its surrounding white space already taken off.
pub proof fn law_validate_ignores_surrounding_space(input: Seq<char>)
    ensures
        validate_url_spec(trim(input)) == validate_url_spec(input),
{
    law_trim_idempotent(input);
}

/// Text that, trimmed, carries no http(s) scheme, holds a dot and no space,
/// and is made only of letters, digits and `.`, `-`, `_`, `/`, `:` is taken
/// as a domain and becomes an https URL, whatever it starts with (`www.`
/// included).
pub proof fn law_domain_like_text_becomes_https(input: Seq<char>)
    ensures
        (!starts_with(trim(input), "http://"@) && !starts_with(trim(input), "https://"@)
            && trim(input).contains('.') && !trim(input).contains(' ') && forall|i: int|
            0 <= i < trim(input).len() ==> char_alphanumeric(#[trigger] trim(input)[i])
                || trim(input)[i] == '.' || trim(input)[i] == '-' || trim(input)[i] == '_'
                || trim(input)[i] == '/' || trim(input)[i] == ':') ==> validate_url_spec(input)
            == UrlCheck::Valid("https://"@ + trim(input)),
{
    let t = trim(input);
    if t.contains('.') {
        assert(t.len() > 0);
    }
}

/// What each answer can be: empty text is invalid; a valid URL is the
/// trimmed text itself or that text behind "https://"; a search query is
/// the trimmed text, non-empty, with no "://" and not starting "www.".
pub proof fn law_classification_shapes(input: Seq<char>)
    ensures
        trim(input).len() == 0 ==> validate_url_spec(input) == UrlCheck::Invalid("Empty URL"@),
        validate_url_spec(input) matches UrlCheck::Valid(u) ==> (u == trim(input) || u
            == "https://"@ + trim(input)),
        validate_url_spec(input) matches UrlCheck::SearchQuery(q) ==> q == trim(input)
            && q.len() > 0 && !contains_seq(q, "://"@) && !starts_with(q, "www."@),
{
}

/// Text with an http or https scheme is valid exactly when something with a
/// dot follows the scheme, and is then kept as it was typed (trimmed).
pub proof fn law_scheme_text_kept_when_it_has_a_domain(input: Seq<char>)
    requires
        starts_with(trim(input), "http://"@) || starts_with(trim(input), "https://"@),
    ensures
        validate_url_spec(input) is Valid || validate_url_spec(input) is Invalid,
        validate_url_spec(input) is Valid ==> validate_url_spec(input) == UrlCheck::Valid(
            trim(input),
        ),
{
}

/// Address Bar widget state.
#[derive(Debug)]
pub struct AddressBar {
    text: String,
    is_loading: bool,
    is_focused: bool,
}

/// The abstract state of the address bar.
pub struct AddressBarView {
    pub text: Seq<char>,
    pub is_loading: bool,
    pub is_focused: bool,
}

impl View for AddressBar {
    type V = AddressBarView;

    closed spec fn view(&self) -> AddressBarView {
        AddressBarView { text: self.text@, is_loading: self.is_loading, is_focused: self.is_focused }
    }
}

/// Whether every character of `t` is an address character.
fn all_address_chars(t: &Vec<char>) -> (b: bool)
    ensures
        b == forall|i: int| 0 <= i < t@.len() ==> address_char(#[trigger] t@[i]),
{
    let mut i: usize = 0;
    while i < t.len()
        invariant
            i <= t@.len(),
            forall|j: int| 0 <= j < i ==> address_char(#[trigger] t@[j]),
        decreases t@.len() - i,
    {
        let c = t[i];
        if !(is_alphanumeric(c) || c == '.' || c == '-' || c == '_' || c == '/' || c == ':') {
            assert(!address_char(t@[i as int]));
            return false;
        }
        i += 1;
    }
    true
}

impl AddressBar {
    /// An empty address bar that is neither loading nor focused.
    pub fn new() -> (b: AddressBar)
        ensures
            b@.text == Seq::<char>::empty(),
            !b@.is_loading,
            !b@.is_focused,
    {
        AddressBar { text: String::new(), is_loading: false, is_focused: false }
    }

    /// The current text.
    pub fn get_text(&self) -> (s: &str)
        ensures
            s@ == self@.text,
    {
        self.text.as_str()
    }

    /// Set the text.
    pub fn set_text(&mut self, text: String)
        ensures
            final(self)@ == (AddressBarView { text: text@, ..old(self)@ }),
    {
        self.text = text;
    }

    /// Whether the page is loading.
    pub fn is_loading(&self) -> (b: bool)
        ensures
            b == self@.is_loading,
    {
        self.is_loading
    }

    /// Set the loading state.
    pub fn set_loading(&mut self, loading: bool)
        ensures
            final(self)@ == (AddressBarView { is_loading: loading, ..old(self)@ }),
    {
        self.is_loading = loading;
    }

    /// Whether the address bar has focus.
    pub fn is_focused(&self) -> (b: bool)
        ensures
            b == self@.is_focused,
    {
        self.is_focused
    }

    /// Set the focus state.
    pub fn set_focused(&mut self, focused: bool)
        ensures
            final(self)@ == (AddressBarView { is_focused: focused, ..old(self)@ }),
    {
        self.is_focused = focused;
    }

    /// Whether the current text is an https URL.
    pub fn is_secure(&self) -> (b: bool)
        ensures
            b == starts_with(self@.text, "https://"@),
    {
        let t = chars_of(self.text.as_str());
        let p = chars_of("https://");
        has_prefix(&t, &p)
    }

    /// Classify typed text as a URL, an invalid URL or a search query.
    pub fn validate_url(&self, input: &str) -> (r: UrlValidationResult)
        ensures
            r.check() == validate_url_spec(input@),
            (!starts_with(trim(input@), "http://"@) && !starts_with(trim(input@), "https://"@)
                && trim(input@).contains('.') && !trim(input@).contains(' ') && forall|i: int|
                0 <= i < trim(input@).len() ==> char_alphanumeric(#[trigger] trim(input@)[i])
                    || trim(input@)[i] == '.' || trim(input@)[i] == '-' || trim(input@)[i] == '_'
                    || trim(input@)[i] == '/' || trim(input@)[i] == ':') ==> r.check()
                == UrlCheck::Valid("https://"@ + trim(input@)),
    {
        proof {
            law_domain_like_text_becomes_https(input@);
        }
        let raw = chars_of(input);
        let t = trim_chars(&raw);
        if t.len() == 0 {
            return UrlValidationResult::Invalid(String::from_str("Empty URL"));
        }
        let http = chars_of("http://");
        let https = chars_of("https://");
        let is_https = has_prefix(&t, &https);
        proof {
            reveal_strlit("http://");
            reveal_strlit("https://");
        }
        if has_prefix(&t, &http) || is_https {
            let after = if is_https {
                slice_chars(&t, 8, t.len())
            } else {
                slice_chars(&t, 7, t.len())
            };
            if after.len() == 0 || !contains_char(&after, '.') {
                return UrlValidationResult::Invalid(String::from_str("Invalid domain"));
            }
            return UrlValidationResult::Valid(string_from_chars(t.as_slice()));
        }
        if contains_char(&t, '.') && !contains_char(&t, ' ') {
            if all_address_chars(&t) {
                let mut s = String::from_str("https://");
                let rest = string_from_chars(t.as_slice());
                s.append(rest.as_str());
                return UrlValidationResult::Valid(s);
            }
        }
        let sep = chars_of("://");
        let www = chars_of("www.");
        let has_sep = match find_seq(&t, &sep) {
            Some(_) => true,
            None => false,
        };
        if has_sep || has_prefix(&t, &www) {
            return UrlValidationResult::Invalid(String::from_str("Malformed URL"));
        }
        UrlValidationResult::SearchQuery(string_from_chars(t.as_slice()))
    }
}

} // verus!

verus! {

impl Default for AddressBar {
    /// An empty address bar that is neither loading nor focused.
    fn default() -> (b: Self)
        ensures
            b@.text == Seq::<char>::empty(),
            !b@.is_loading,
            !b@.is_focused,
    {
        AddressBar::new()
    }
}

} // verus!
