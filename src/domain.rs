//! Validated subscriber names and email addresses.
use vstd::prelude::*;
use vstd::string::StrSliceExecFns;

verus! {

/// Number of user-perceived characters (extended grapheme clusters) in `s`.
pub uninterp spec fn grapheme_count(s: Seq<char>) -> nat;

/// The characters that may never appear in a subscriber name.
pub open spec fn is_forbidden_char(c: char) -> bool {
    c == '/' || c == '(' || c == ')' || c == '"' || c == '<' || c == '>' || c == '\\'
        || c == ';' || c == '{' || c == '}'
}

/// Unicode's `White_Space` property.
pub open spec fn is_white_space(c: char) -> bool {
    ('\u{9}' <= c && c <= '\u{d}') || c == ' ' || c == '\u{85}' || c == '\u{a0}'
        || c == '\u{1680}' || ('\u{2000}' <= c && c <= '\u{200a}') || c == '\u{2028}'
        || c == '\u{2029}' || c == '\u{202f}' || c == '\u{205f}' || c == '\u{3000}'
}

/// Nothing is left once leading and trailing white space is trimmed.
pub open spec fn is_blank(s: Seq<char>) -> bool {
    forall|i: int| 0 <= i < s.len() ==> is_white_space(#[trigger] s[i])
}

pub open spec fn has_forbidden_char(s: Seq<char>) -> bool {
    exists|i: int| 0 <= i < s.len() && is_forbidden_char(#[trigger] s[i])
}

/// The rules a subscriber name must meet.
pub open spec fn name_is_valid(s: Seq<char>) -> bool {
    !is_blank(s) && grapheme_count(s) <= 256 && !has_forbidden_char(s)
}

/// Relies on `unicode_segmentation::UnicodeSegmentation::graphemes` (extended
/// clusters): how many user-perceived characters `s` holds.
#[verifier::external_body]
fn count_graphemes(s: &str) -> (r: usize)
    ensures
        r as nat == grapheme_count(s@),
{
    unicode_segmentation::UnicodeSegmentation::graphemes(s, true).count()
}

/// Whether `c` is white space, as `char::is_whitespace` has it.
fn is_white_space_char(c: char) -> (r: bool)
    ensures
        r == is_white_space(c),
{
    ('\u{9}' <= c && c <= '\u{d}') || c == ' ' || c == '\u{85}' || c == '\u{a0}'
        || c == '\u{1680}' || ('\u{2000}' <= c && c <= '\u{200a}') || c == '\u{2028}'
        || c == '\u{2029}' || c == '\u{202f}' || c == '\u{205f}' || c == '\u{3000}'
}

fn is_forbidden(c: char) -> (r: bool)
    ensures
        r == is_forbidden_char(c),
{
    c == '/' || c == '(' || c == ')' || c == '"' || c == '<' || c == '>' || c == '\\'
        || c == ';' || c == '{' || c == '}'
}

/// The rules on names, given the number of user-perceived characters of `s`.
pub fn meets_name_rules(s: &str, graphemes: usize) -> (r: bool)
    ensures
        r == (!is_blank(s@) && graphemes <= 256 && !has_forbidden_char(s@)),
{
    let n = s.unicode_len();
    let mut blank = true;
    let mut forbidden = false;
    let mut i: usize = 0;
    while i < n
        invariant
            n == s@.len(),
            i <= n,
            blank == (forall|j: int| 0 <= j < i ==> is_white_space(#[trigger] s@[j])),
            forbidden == (exists|j: int| 0 <= j < i && is_forbidden_char(#[trigger] s@[j])),
        decreases n - i,
    {
        let c = s.get_char(i);
        if !is_white_space_char(c) {
            blank = false;
        }
        if is_forbidden(c) {
            forbidden = true;
        }
        i = i + 1;
    }
    !(blank || graphemes > 256 || forbidden)
}

/// Returns `true` if `s` satisfies every constraint on subscriber names.
pub fn is_valid_name(s: &str) -> (r: bool)
    ensures
        r == name_is_valid(s@),
{
    meets_name_rules(s, count_graphemes(s))
}

/// Whether the email validator of the `validator` crate accepts `s`.
pub uninterp spec fn email_is_valid(s: Seq<char>) -> bool;

pub open spec fn contains_char(s: Seq<char>, c: char) -> bool {
    exists|i: int| 0 <= i < s.len() && s[i] == c
}

/// What every accepted address has: it is not empty, holds an `@`, and does
/// not start with one.
pub open spec fn email_shape_ok(s: Seq<char>) -> bool {
    s.len() > 0 && contains_char(s, '@') && s[0] != '@'
}

/// Relies on `validator::ValidateEmail::validate_email` on a `&str`: its source
/// rejects an empty string, one without `@`, and one whose part before the
/// last `@` is empty, which is the case when the first character is `@`.
#[verifier::external_body]
fn validate_email(s: &str) -> (r: bool)
    ensures
        r == email_is_valid(s@),
        r ==> email_shape_ok(s@),
{
    validator::ValidateEmail::validate_email(&s)
}

/// A subscriber name that meets `name_is_valid`.
#[derive(Debug)]
pub struct SubscriberName(String);

impl View for SubscriberName {
    type V = Seq<char>;

    closed spec fn view(&self) -> Seq<char> {
        self.0@
    }
}

impl SubscriberName {
    #[verifier::type_invariant]
    spec fn inv(self) -> bool {
        name_is_valid(self.0@)
    }

    /// Accepts `s` exactly when it meets the rules on names.
    pub fn parse(s: String) -> (r: Result<SubscriberName, String>)
        ensures
            r is Ok <==> name_is_valid(s@),
            r matches Ok(n) ==> n@ == s@,
            r matches Err(m) ==> m@ == s@ + " is not a valid subscriber name."@,
    {
        if is_valid_name(s.as_str()) {
            Ok(SubscriberName(s))
        } else {
            let mut msg = s;
            msg.append(" is not a valid subscriber name.");
            Err(msg)
        }
    }

    /// Gives up the wrapper and returns the name.
    pub fn inner(self) -> (r: String)
        ensures
            r@ == self@,
    {
        self.0
    }

    /// The name, borrowed.
    pub fn inner_ref(&self) -> (r: &str)
        ensures
            r@ == self@,
    {
        self.0.as_str()
    }
}

/// An email address that the validator accepts.
#[derive(Debug)]
pub struct SubscriberEmail(String);

impl View for SubscriberEmail {
    type V = Seq<char>;

    closed spec fn view(&self) -> Seq<char> {
        self.0@
    }
}

impl SubscriberEmail {
    #[verifier::type_invariant]
    spec fn inv(self) -> bool {
        email_is_valid(self.0@)
    }

    /// Accepts `s` exactly when the email validator does.
    pub fn parse(s: String) -> (r: Result<SubscriberEmail, String>)
        ensures
            r is Ok <==> email_is_valid(s@),
            r matches Ok(e) ==> e@ == s@,
            r is Ok ==> email_shape_ok(s@),
            r matches Err(m) ==> m@ == s@ + " is not a valid subscriber email."@,
    {
        if validate_email(s.as_str()) {
            Ok(SubscriberEmail(s))
        } else {
            let mut msg = s;
            msg.append(" is not a valid subscriber email.");
            Err(msg)
        }
    }

    /// The address, borrowed.
    pub fn as_str(&self) -> (r: &str)
        ensures
            r@ == self@,
    {
        self.0.as_str()
    }
}

/// A registrant whose name and email were both validated.
#[derive(Debug)]
pub struct NewSubscriber {
    pub email: SubscriberEmail,
    pub name: SubscriberName,
}

/// A registration form as submitted.
#[derive(Debug, Clone)]
pub struct FormData {
    pub email: String,
    pub name: String,
}

/// Validates the name first, then the email: an invalid name gives the
/// name's error whatever the email.
pub fn parse_subscriber(form: FormData) -> (r: Result<NewSubscriber, String>)
    ensures
        r is Ok <==> name_is_valid(form.name@) && email_is_valid(form.email@),
        r is Ok ==> email_shape_ok(form.email@),
        r matches Ok(n) ==> n.name@ == form.name@ && n.email@ == form.email@,
        !name_is_valid(form.name@) ==> (r matches Err(m) && m@ == form.name@
            + " is not a valid subscriber name."@),
        name_is_valid(form.name@) && !email_is_valid(form.email@) ==> (r matches Err(m) && m@
            == form.email@ + " is not a valid subscriber email."@),
{
    let name = SubscriberName::parse(form.name)?;
    let email = SubscriberEmail::parse(form.email)?;
    Ok(NewSubscriber { email, name })
}

} // verus!
