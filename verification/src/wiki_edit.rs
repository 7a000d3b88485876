//! Editing a page of the wiki: the session cookies, the fields read from the
//! edit form, and the body of the edit request.
use vstd::prelude::*;

use crate::text::{
    all_ascii, chars_of, concat, holds, occurs, occurs_at, replace, replaced, slice_copy, split_first,
    split_once, string_of,
};

verus! {

broadcast use vstd::slice::group_slice_axioms;

/// The details of a wiki session.
pub struct CommunityDetails {
    session: String,
    token: String,
    user_id: String,
    user_name: String,
    shopify: String,
}

impl CommunityDetails {
    pub fn new(session: String, token: String, user_id: String, user_name: String, shopify: String) -> (r: Self)
        ensures
            r.cookie_texts() == seq![
                "community_session="@ + session@,
                "communityToken="@ + token@,
                "communityUserID="@ + user_id@,
                "communityUserName="@ + user_name@,
                "_shopify_y="@ + shopify@,
            ],
    {
        CommunityDetails { session, token, user_id, user_name, shopify }
    }

    /// The cookies of the session, each `name=value`.
    pub closed spec fn cookie_texts(&self) -> Seq<Seq<char>> {
        seq![
            "community_session="@ + self.session@,
            "communityToken="@ + self.token@,
            "communityUserID="@ + self.user_id@,
            "communityUserName="@ + self.user_name@,
            "_shopify_y="@ + self.shopify@,
        ]
    }

    /// The cookies that carry the session, each `name=value`, for the wiki's address.
    pub fn cookies(&self) -> (r: Vec<String>)
        ensures
            r@.map_values(|c: String| c@) == self.cookie_texts(),
    {
        let mut out: Vec<String> = Vec::new();
        out.push(string_of(&concat(&chars_of("community_session="), &chars_of(self.session.as_str()))));
        out.push(string_of(&concat(&chars_of("communityToken="), &chars_of(self.token.as_str()))));
        out.push(string_of(&concat(&chars_of("communityUserID="), &chars_of(self.user_id.as_str()))));
        out.push(string_of(&concat(&chars_of("communityUserName="), &chars_of(self.user_name.as_str()))));
        out.push(string_of(&concat(&chars_of("_shopify_y="), &chars_of(self.shopify.as_str()))));
        assert(out@.map_values(|c: String| c@) =~= self.cookie_texts());
        out
    }
}

// ----- the edit form -----

/// The last index at or before `i` where `p` occurs in `s`.
pub open spec fn rfind_from(s: Seq<char>, p: Seq<char>, i: int) -> Option<int>
    decreases i + 1,
{
    if i < 0 {
        None
    } else if occurs_at(s, p, i) {
        Some(i)
    } else {
        rfind_from(s, p, i - 1)
    }
}

/// `str::rsplit_once`: the parts before and after the last occurrence of `p`.
pub open spec fn split_last(s: Seq<char>, p: Seq<char>) -> Option<(Seq<char>, Seq<char>)> {
    match rfind_from(s, p, s.len() - p.len()) {
        Some(i) => Some((s.take(i), s.skip(i + p.len()))),
        None => None,
    }
}


fn split_last_chars(s: &[char], p: &[char]) -> (r: Option<(Vec<char>, Vec<char>)>)
    ensures
        match r {
            Some((a, b)) => split_last(s@, p@) == Some((a@, b@)),
            None => split_last(s@, p@) is None,
        },
{
    if p.len() > s.len() {
        assert(rfind_from(s@, p@, s@.len() - p@.len()) is None);
        return None;
    }
    let mut k: usize = s.len() - p.len();
    loop
        invariant
            p@.len() <= s@.len(),
            k <= s@.len() - p@.len(),
            rfind_from(s@, p@, s@.len() - p@.len()) == rfind_from(s@, p@, k as int),
        decreases k,
    {
        if occurs(s, p, k) {
            assert(k + p.len() <= s.len());
            let a = slice_copy(s, 0, k);
            let b = slice_copy(s, k + p.len(), s.len());
            assert(a@ =~= s@.take(k as int));
            assert(b@ =~= s@.skip(k + p@.len()));
            return Some((a, b));
        }
        if k == 0 {
            assert(rfind_from(s@, p@, -1) is None);
            return None;
        }
        k -= 1;
    }
}

/// The text of the edit form marking a hidden field: `" name="key"/>`.
pub open spec fn field_marker(key: Seq<char>) -> Seq<char> {
    "\" name=\""@ + key + "\"/>"@
}

/// The value of a hidden field of the edit form, such as the edit token in
/// `<input type="hidden" value="TOKEN" name="wpEditToken"/>`: what follows the
/// last `value="` before the field's name.
pub open spec fn field_value(key: Seq<char>, text: Seq<char>) -> Option<Seq<char>> {
    match split_first(text, field_marker(key)) {
        None => None,
        Some((first_half, _)) => match split_last(first_half, "value=\""@) {
            None => None,
            Some((_, token)) => Some(token),
        },
    }
}

/// Reads the value of a hidden field of the edit form.
pub fn extract(key: &str, text: &str) -> (r: Option<String>)
    ensures
        match r {
            Some(v) => field_value(key@, text@) == Some(v@),
            None => field_value(key@, text@) is None,
        },
{
    let marker = concat(&concat(&chars_of("\" name=\""), &chars_of(key)), &chars_of("\"/>"));
    let t = chars_of(text);
    let (first_half, _) = split_once(&t, &marker)?;
    let (_, token) = split_last_chars(&first_half, &chars_of("value=\""))?;
    Some(string_of(&token))
}

// ----- the edit request -----

/// Whether a character is left as it is by URL encoding: an ASCII letter or
/// digit, `-`, `_`, `.` or `~`.
pub open spec fn unreserved(c: char) -> bool {
    ('0' <= c && c <= '9') || ('A' <= c && c <= 'Z') || ('a' <= c && c <= 'z') || c == '-' || c == '_'
        || c == '.' || c == '~'
}

/// An uppercase hexadecimal digit.
pub open spec fn hex_digit(d: int) -> char {
    if d < 10 {
        (d + '0' as int) as char
    } else {
        (d - 10 + 'A' as int) as char
    }
}

/// The URL encoding of an ASCII character: itself when unreserved, else `%`
/// and its code in two uppercase hexadecimal digits.
pub open spec fn ascii_encoded(c: char) -> Seq<char> {
    if unreserved(c) {
        seq![c]
    } else {
        seq!['%', hex_digit((c as int) / 16), hex_digit((c as int) % 16)]
    }
}

/// The URL encoding of an ASCII text, character by character.
pub open spec fn ascii_text_encoded(s: Seq<char>) -> Seq<char>
    decreases s.len(),
{
    if s.len() == 0 {
        Seq::empty()
    } else {
        ascii_text_encoded(s.drop_last()) + ascii_encoded(s.last())
    }
}

/// The name of what `urlencoding::encode` returns for a text.
pub uninterp spec fn url_encoded(s: Seq<char>) -> Seq<char>;

/// Calls `urlencoding::encode`, which percent-encodes every byte of the text's
/// UTF-8 encoding except ASCII letters, digits, `-`, `_`, `.` and `~`. The
/// result is named `url_encoded` of the text; for an ASCII text it is stated
/// character by character. Nothing more is stated of other texts.
#[verifier::external_body]
fn url_encode(s: &str) -> (r: String)
    ensures
        r@ == url_encoded(s@),
        all_ascii(s@) ==> r@ == ascii_text_encoded(s@),
{
    urlencoding::encode(s).into_owned()
}

/// The body of the request that replaces the first section of a page.
pub open spec fn edit_body_text(command: Seq<char>, content: Seq<char>, token: Seq<char>, edit_rev_id: Seq<char>) -> Seq<char> {
    "action=edit&format=json&formatversion=2&title="@ + url_encoded(command)
        + "&section=0&summary=&minor=true&contentmodel=wikitext&contentformat=text%2Fx-wiki&baserevid="@
        + url_encoded(edit_rev_id) + "&text="@ + url_encoded(content) + "&token="@ + url_encoded(token)
}

/// The body of the request that replaces the first section of the command's
/// page with new content, as a minor edit of the given revision.
pub fn edit_body(command: &str, content: &str, token: &str, edit_rev_id: &str) -> (r: String)
    ensures
        r@ == edit_body_text(command@, content@, token@, edit_rev_id@),
{
    let mut out = chars_of("action=edit&format=json&formatversion=2&title=");
    out = concat(&out, &chars_of(url_encode(command).as_str()));
    out = concat(&out, &chars_of("&section=0&summary=&minor=true&contentmodel=wikitext&contentformat=text%2Fx-wiki&baserevid="));
    out = concat(&out, &chars_of(url_encode(edit_rev_id).as_str()));
    out = concat(&out, &chars_of("&text="));
    out = concat(&out, &chars_of(url_encode(content).as_str()));
    out = concat(&out, &chars_of("&token="));
    out = concat(&out, &chars_of(url_encode(token).as_str()));
    string_of(&out)
}


// ----- searching and replacing in pages -----

/// The name of whether `regex::Regex::new` accepts a pattern.
pub uninterp spec fn regex_compiles(pattern: Seq<char>) -> bool;

/// The name of whether a compiled pattern matches somewhere in a text
/// (`Regex::is_match`).
pub uninterp spec fn regex_matches(pattern: Seq<char>, text: Seq<char>) -> bool;

/// The name of the text with every match of a compiled pattern replaced, `$1`
/// and the like in the replacement standing for capture groups
/// (`Regex::replace_all`).
pub uninterp spec fn regex_replaced(pattern: Seq<char>, text: Seq<char>, replacement: Seq<char>) -> Seq<char>;

/// Calls `regex::Regex::new` and tells whether the pattern compiles; the
/// answer is named `regex_compiles` of the pattern.
#[verifier::external_body]
fn regex_is_valid(pattern: &str) -> (r: bool)
    ensures
        r == regex_compiles(pattern@),
{
    regex::Regex::new(pattern).is_ok()
}

/// Calls `regex::Regex::new` on a pattern that compiles and `Regex::is_match`
/// on the text; the answer is named `regex_matches`.
#[verifier::external_body]
fn regex_is_match(pattern: &str, text: &str) -> (r: bool)
    requires
        regex_compiles(pattern@),
    ensures
        r == regex_matches(pattern@, text@),
{
    regex::Regex::new(pattern).expect("the pattern compiles").is_match(text)
}

/// Calls `regex::Regex::new` on a pattern that compiles and
/// `Regex::replace_all`; the result is named `regex_replaced`.
#[verifier::external_body]
fn regex_replace_all(pattern: &str, text: &str, replacement: &str) -> (r: String)
    requires
        regex_compiles(pattern@),
    ensures
        r@ == regex_replaced(pattern@, text@, replacement@),
{
    regex::Regex::new(pattern).expect("the pattern compiles").replace_all(text, replacement).to_string()
}

/// Whether a page holds the search term: a match of the pattern when
/// `is_regex`, else an occurrence of the text.
pub fn regex_contains(line: &str, is_regex: bool, search: &str) -> (r: bool)
    requires
        is_regex ==> regex_compiles(search@),
    ensures
        r == if is_regex {
            regex_matches(search@, line@)
        } else {
            holds(line@, search@)
        },
{
    if is_regex {
        regex_is_match(search, line)
    } else {
        crate::text::contains(&chars_of(line), &chars_of(search))
    }
}

/// A page with the search term replaced: every match of the pattern when
/// `is_regex` (with `$1` and the like for capture groups), else every
/// occurrence of the text.
pub fn regex_replace(line: &str, is_regex: bool, search: &str, replacement: &str) -> (r: String)
    requires
        is_regex ==> regex_compiles(search@),
    ensures
        r@ == if is_regex {
            regex_replaced(search@, line@, replacement@)
        } else {
            replaced(line@, search@, replacement@)
        },
{
    if is_regex {
        regex_replace_all(search, line, replacement)
    } else {
        string_of(&replace(&chars_of(line), &chars_of(search), &chars_of(replacement)))
    }
}

/// `regex_contains`, or nothing when the search is a pattern that does not compile.
pub fn try_regex_contains(line: &str, is_regex: bool, search: &str) -> (r: Option<bool>)
    ensures
        match r {
            Some(b) => (is_regex ==> regex_compiles(search@)) && b == if is_regex {
                regex_matches(search@, line@)
            } else {
                holds(line@, search@)
            },
            None => is_regex && !regex_compiles(search@),
        },
{
    if is_regex && !regex_is_valid(search) {
        return None;
    }
    Some(regex_contains(line, is_regex, search))
}

/// `regex_replace`, or nothing when the search is a pattern that does not compile.
pub fn try_regex_replace(line: &str, is_regex: bool, search: &str, replacement: &str) -> (r: Option<String>)
    ensures
        match r {
            Some(t) => (is_regex ==> regex_compiles(search@)) && t@ == if is_regex {
                regex_replaced(search@, line@, replacement@)
            } else {
                replaced(line@, search@, replacement@)
            },
            None => is_regex && !regex_compiles(search@),
        },
{
    if is_regex && !regex_is_valid(search) {
        return None;
    }
    Some(regex_replace(line, is_regex, search, replacement))
}

} // verus!
