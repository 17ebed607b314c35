//! Subscribers: the validated email address and display name, the
//! registration form, and the errors of the subscription flow.

use vstd::prelude::*;
use vstd::string::*;
use crate::text::{chars_of, prefixed, trimmed_len, trimmed_length};

verus! {

/// ASCII letters and digits.
pub open spec fn is_alnum(c: char) -> bool {
    ('a' <= c && c <= 'z') || ('A' <= c && c <= 'Z') || ('0' <= c && c <= '9')
}

/// A character allowed in the local part of an address, besides the dot.
pub open spec fn is_atom_char(c: char) -> bool {
    is_alnum(c) || c == '!' || c == '#' || c == '$' || c == '%' || c == '&' || c == '\''
        || c == '*' || c == '+' || c == '/' || c == '=' || c == '?' || c == '^' || c == '_'
        || c == '`' || c == '{' || c == '|' || c == '}' || c == '~' || c == '-'
}

/// A local part: runs of atom characters joined by single dots.
pub open spec fn is_dot_atom(s: Seq<char>) -> bool {
    &&& s.len() > 0
    &&& s[0] != '.'
    &&& s[s.len() - 1] != '.'
    &&& forall|i: int| 0 <= i < s.len() ==> is_atom_char(#[trigger] s[i]) || s[i] == '.'
    &&& forall|i: int| 0 <= i < s.len() - 1 && #[trigger] s[i] == '.' ==> s[i + 1] != '.'
}

/// A domain of one or more dot-separated DNS labels; each label is made of
/// letters, digits and hyphens, and starts and ends with a letter or digit.
pub open spec fn is_domain(s: Seq<char>) -> bool {
    &&& s.len() > 0
    &&& is_alnum(s[0])
    &&& is_alnum(s[s.len() - 1])
    &&& forall|i: int| 0 <= i < s.len() ==> is_alnum(#[trigger] s[i]) || s[i] == '-' || s[i] == '.'
    &&& forall|i: int|
        0 < i < s.len() - 1 && #[trigger] s[i] == '.' ==> is_alnum(s[i - 1]) && is_alnum(s[i + 1])
}

/// An address of the form `local@domain`.
pub open spec fn valid_email(s: Seq<char>) -> bool {
    exists|k: int|
        0 <= k < s.len() && #[trigger] s[k] == '@' && is_dot_atom(s.subrange(0, k))
            && is_domain(s.subrange(k + 1, s.len() as int))
}

/// A display name: one to fifty characters once trimmed.
pub open spec fn valid_name(s: Seq<char>) -> bool {
    1 <= trimmed_len(s) <= 50
}

fn alnum(c: char) -> (r: bool)
    ensures
        r == is_alnum(c),
{
    ('a' <= c && c <= 'z') || ('A' <= c && c <= 'Z') || ('0' <= c && c <= '9')
}

fn atom_char(c: char) -> (r: bool)
    ensures
        r == is_atom_char(c),
{
    alnum(c) || c == '!' || c == '#' || c == '$' || c == '%' || c == '&' || c == '\''
        || c == '*' || c == '+' || c == '/' || c == '=' || c == '?' || c == '^' || c == '_'
        || c == '`' || c == '{' || c == '|' || c == '}' || c == '~' || c == '-'
}

fn dot_atom(v: &Vec<char>) -> (r: bool)
    ensures
        r == is_dot_atom(v@),
{
    let n = v.len();
    if n == 0 || v[0] == '.' || v[n - 1] == '.' {
        return false;
    }
    let mut i: usize = 0;
    while i < n
        invariant
            n == v@.len(),
            i <= n,
            forall|j: int| 0 <= j < i ==> is_atom_char(#[trigger] v@[j]) || v@[j] == '.',
            forall|j: int| 0 <= j < i && j < n - 1 && #[trigger] v@[j] == '.' ==> v@[j + 1] != '.',
        decreases n - i,
    {
        if !(atom_char(v[i]) || v[i] == '.') {
            return false;
        }
        if i + 1 < n && v[i] == '.' && v[i + 1] == '.' {
            return false;
        }
        i += 1;
    }
    true
}

fn domain(v: &Vec<char>) -> (r: bool)
    ensures
        r == is_domain(v@),
{
    let n = v.len();
    if n == 0 || !alnum(v[0]) || !alnum(v[n - 1]) {
        return false;
    }
    let mut i: usize = 0;
    while i < n
        invariant
            n == v@.len(),
            n > 0,
            is_alnum(v@[0]),
            is_alnum(v@[n - 1]),
            i <= n,
            forall|j: int| 0 <= j < i ==> is_alnum(#[trigger] v@[j]) || v@[j] == '-' || v@[j] == '.',
            forall|j: int|
                0 < j < i && j < n - 1 && #[trigger] v@[j] == '.' ==> is_alnum(v@[j - 1])
                    && is_alnum(v@[j + 1]),
        decreases n - i,
    {
        let c = v[i];
        if !(alnum(c) || c == '-' || c == '.') {
            return false;
        }
        if c == '.' {
            if 0 < i && i < n - 1 && !(alnum(v[i - 1]) && alnum(v[i + 1])) {
                return false;
            }
        }
        i += 1;
    }
    true
}

/// The elements of `v` from `lo` up to `hi`.
fn slice_of(v: &Vec<char>, lo: usize, hi: usize) -> (r: Vec<char>)
    requires
        lo <= hi <= v.len(),
    ensures
        r@ == v@.subrange(lo as int, hi as int),
{
    let mut r: Vec<char> = Vec::new();
    let mut i = lo;
    while i < hi
        invariant
            lo <= i <= hi <= v.len(),
            r@ == v@.subrange(lo as int, i as int),
        decreases hi - i,
    {
        r.push(v[i]);
        i += 1;
    }
    r
}

/// Checks an address against the grammar of `valid_email`.
pub fn is_valid_email(s: &str) -> (r: bool)
    ensures
        r == valid_email(s@),
{
    let v = chars_of(s);
    let n = v.len();
    let mut k: usize = 0;
    while k < n && v[k] != '@'
        invariant
            v@ == s@,
            n == v@.len(),
            k <= n,
            forall|j: int| 0 <= j < k ==> #[trigger] v@[j] != '@',
        decreases n - k,
    {
        k += 1;
    }
    if k == n {
        return false;
    }
    let local = slice_of(&v, 0, k);
    let dom = slice_of(&v, k + 1, n);
    let r = dot_atom(&local) && domain(&dom);
    proof {
        if valid_email(s@) {
            let k2 = choose|k2: int|
                0 <= k2 < s@.len() && #[trigger] s@[k2] == '@' && is_dot_atom(s@.subrange(0, k2))
                    && is_domain(s@.subrange(k2 + 1, s@.len() as int));
            if k < k2 {
                assert(s@.subrange(0, k2)[k as int] == '@');
            }
            assert(k2 == k);
        }
        if r {
            assert(s@[k as int] == '@');
        }
    }
    r
}

/// Checks a display name against `valid_name`.
pub fn is_valid_name(s: &str) -> (r: bool)
    ensures
        r == valid_name(s@),
{
    let n = trimmed_length(s);
    1 <= n && n <= 50
}

/// The errors of registration and confirmation.
#[derive(Debug)]
pub enum SubscriberError {
    /// The submitted email or name is malformed.
    ParseError(String),
    /// The subscriber store refused a write.
    DatabaseError(String),
    /// The confirmation email could not be delivered.
    EmailError(String),
    /// The presented confirmation token is unknown or already used.
    InvalidToken(String),
}

impl SubscriberError {
    /// The HTTP status that answers this error: 400 for bad input, 500 for
    /// a failure on the server's side.
    pub fn status_code(&self) -> (r: u16)
        ensures
            r == (match self {
                SubscriberError::ParseError(_) | SubscriberError::InvalidToken(_) => 400u16,
                SubscriberError::DatabaseError(_) | SubscriberError::EmailError(_) => 500u16,
            }),
    {
        match self {
            SubscriberError::ParseError(_) | SubscriberError::InvalidToken(_) => 400,
            SubscriberError::DatabaseError(_) | SubscriberError::EmailError(_) => 500,
        }
    }

    /// A description of the error.
    pub fn message(&self) -> (r: String)
        ensures
            r@ == (match self {
                SubscriberError::ParseError(e) => "Parse Error: "@ + e@,
                SubscriberError::DatabaseError(e) => "Database Error: "@ + e@,
                SubscriberError::EmailError(e) => "Error sending email: "@ + e@,
                SubscriberError::InvalidToken(e) => "Invalid token: "@ + e@,
            }),
    {
        match self {
            SubscriberError::ParseError(e) => prefixed("Parse Error: ", e),
            SubscriberError::DatabaseError(e) => prefixed("Database Error: ", e),
            SubscriberError::EmailError(e) => prefixed("Error sending email: ", e),
            SubscriberError::InvalidToken(e) => prefixed("Invalid token: ", e),
        }
    }
}

/// A syntactically valid email address.
#[derive(Debug)]
pub struct SubscriberEmail(String);

impl View for SubscriberEmail {
    type V = Seq<char>;

    closed spec fn view(&self) -> Seq<char> {
        self.0@
    }
}

impl SubscriberEmail {
    pub fn parse(s: String) -> (r: Result<SubscriberEmail, SubscriberError>)
        ensures
            valid_email(s@) ==> (r matches Ok(e) && e@ == s@),
            !valid_email(s@) ==> (r matches Err(SubscriberError::ParseError(m)) && m@
                == "Invalid email"@),
    {
        if !is_valid_email(s.as_str()) {
            return Err(SubscriberError::ParseError(String::from_str("Invalid email")));
        }
        Ok(SubscriberEmail(s))
    }

    pub fn as_ref(&self) -> (r: &String)
        ensures
            r@ == self@,
    {
        &self.0
    }
}

/// A display name of one to fifty characters once trimmed.
#[derive(Debug)]
pub struct SubscriberName(String);

impl View for SubscriberName {
    type V = Seq<char>;

    closed spec fn view(&self) -> Seq<char> {
        self.0@
    }
}

impl SubscriberName {
    pub fn parse(s: String) -> (r: Result<SubscriberName, SubscriberError>)
        ensures
            valid_name(s@) ==> (r matches Ok(n) && n@ == s@),
            trimmed_len(s@) == 0 ==> (r matches Err(SubscriberError::ParseError(m)) && m@
                == "Empty name"@),
            trimmed_len(s@) > 50 ==> (r matches Err(SubscriberError::ParseError(m))
                && m@ == "Length greater than 50"@),
    {
        let n = trimmed_length(s.as_str());
        if n == 0 {
            return Err(SubscriberError::ParseError(String::from_str("Empty name")));
        }
        if n > 50 {
            return Err(SubscriberError::ParseError(String::from_str("Length greater than 50")));
        }
        Ok(SubscriberName(s))
    }

    pub fn as_ref(&self) -> (r: &String)
        ensures
            r@ == self@,
    {
        &self.0
    }
}


/// Where a subscriber stands in the double opt-in flow.
#[derive(PartialEq, Eq, Structural, Clone, Copy, Debug)]
pub enum SubscriptionStatus {
    Pending,
    Confirmed,
}

/// A stored subscriber.
#[derive(Debug)]
pub struct Subscriber {
    pub email: SubscriberEmail,
    pub name: SubscriberName,
    pub status: SubscriptionStatus,
}

/// A registration whose email and name have passed validation.
#[derive(Debug)]
pub struct NewSubscriber {
    pub email: SubscriberEmail,
    pub name: SubscriberName,
}

/// The registration form as submitted.
#[derive(Debug)]
pub struct SubscriberFormData {
    pub email: String,
    pub name: String,
}

/// Validates a registration form: the email first, then the name.
pub fn parse_subscriber(data: SubscriberFormData) -> (r: Result<NewSubscriber, SubscriberError>)
    ensures
        valid_email(data.email@) && valid_name(data.name@) ==> (r matches Ok(s) && s.email@
            == data.email@ && s.name@ == data.name@),
        !(valid_email(data.email@) && valid_name(data.name@)) ==> (r matches Err(
            SubscriberError::ParseError(_),
        )),
        !valid_email(data.email@) ==> (r matches Err(SubscriberError::ParseError(m)) && m@
            == "Invalid email"@),
        valid_email(data.email@) && trimmed_len(data.name@) == 0 ==> (r matches Err(
            SubscriberError::ParseError(m),
        ) && m@ == "Empty name"@),
        valid_email(data.email@) && trimmed_len(data.name@) > 50 ==> (r matches Err(
            SubscriberError::ParseError(m),
        ) && m@ == "Length greater than 50"@),
{
    let email = SubscriberEmail::parse(data.email)?;
    let name = SubscriberName::parse(data.name)?;
    Ok(NewSubscriber { email, name })
}

} // verus!
