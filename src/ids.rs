use vstd::prelude::*;

verus! {

/// The canonical (hyphenated, lower-case) text of a 128-bit identifier.
pub uninterp spec fn uuid_text(v: u128) -> Seq<char>;

/// The identifier that a text names, if it is a well-formed UUID text.
pub uninterp spec fn uuid_parse(s: Seq<char>) -> Option<u128>;

/// Relies on uuid::Uuid::new_v4: a fresh random identifier. Nothing is known
/// of its value.
#[verifier::external_body]
pub(crate) fn random_uuid() -> (r: u128) {
    uuid::Uuid::new_v4().as_u128()
}

/// Relies on uuid's `Display` for `Uuid`: the hyphenated lower-case form,
/// 36 characters long.
#[verifier::external_body]
pub(crate) fn uuid_to_string(v: u128) -> (r: String)
    ensures
        r@ == uuid_text(v),
        r@.len() == 36,
{
    uuid::Uuid::from_u128(v).to_string()
}

/// Relies on uuid::Uuid::parse_str: the identifier named by the text, or an
/// error when the text is not a UUID.
#[verifier::external_body]
pub(crate) fn parse_uuid(s: &str) -> (r: Option<u128>)
    ensures
        r == uuid_parse(s@),
{
    match uuid::Uuid::parse_str(s) {
        Ok(u) => Some(u.as_u128()),
        Err(_) => None,
    }
}

/// The text given to an identifier parser was not a UUID.
#[derive(Debug, Clone, Copy, PartialEq, Eq)]
pub struct InvalidIdError;

/// Identity of a user.
#[derive(Debug, Clone, Copy, PartialEq, Eq, Hash, PartialOrd, Ord)]
pub struct UserId(pub u128);

/// Identity of a problem.
#[derive(Debug, Clone, Copy, PartialEq, Eq, Hash, PartialOrd, Ord)]
pub struct ProblemId(pub u128);

/// Identity of a submission.
#[derive(Debug, Clone, Copy, PartialEq, Eq, Hash, PartialOrd, Ord)]
pub struct SubmissionId(pub u128);

/// Identity of a mail.
#[derive(Debug, Clone, Copy, PartialEq, Eq, Hash, PartialOrd, Ord)]
pub struct MailId(pub u128);

impl UserId {
    /// A fresh random identity.
    pub fn new() -> (r: Self) {
        UserId(random_uuid())
    }

    pub fn from_u128(value: u128) -> (r: Self)
        ensures
            r.0 == value,
    {
        UserId(value)
    }

    pub fn into_inner(self) -> (r: u128)
        ensures
            r == self.0,
    {
        self.0
    }

    /// The canonical text of this identity.
    pub fn to_string(&self) -> (r: String)
        ensures
            r@ == uuid_text(self.0),
    {
        uuid_to_string(self.0)
    }
}

impl std::str::FromStr for UserId {
    type Err = InvalidIdError;

    fn from_str(s: &str) -> (r: Result<Self, Self::Err>)
        ensures
            match r {
                Ok(id) => uuid_parse(s@) == Some(id.0),
                Err(_) => uuid_parse(s@) is None,
            },
    {
        match parse_uuid(s) {
            Some(v) => Ok(UserId(v)),
            None => Err(InvalidIdError),
        }
    }
}

impl ProblemId {
    /// A fresh random identity.
    pub fn new() -> (r: Self) {
        ProblemId(random_uuid())
    }

    pub fn from_u128(value: u128) -> (r: Self)
        ensures
            r.0 == value,
    {
        ProblemId(value)
    }

    /// The canonical text of this identity.
    pub fn to_string(&self) -> (r: String)
        ensures
            r@ == uuid_text(self.0),
    {
        uuid_to_string(self.0)
    }
}

impl SubmissionId {
    /// A fresh random identity.
    pub fn new() -> (r: Self) {
        SubmissionId(random_uuid())
    }

    pub fn from_u128(value: u128) -> (r: Self)
        ensures
            r.0 == value,
    {
        SubmissionId(value)
    }

    /// The canonical text of this identity.
    pub fn to_string(&self) -> (r: String)
        ensures
            r@ == uuid_text(self.0),
    {
        uuid_to_string(self.0)
    }
}

impl MailId {
    /// A fresh random identity.
    pub fn new() -> (r: Self) {
        MailId(random_uuid())
    }

    /// The canonical text of this identity.
    pub fn to_string(&self) -> (r: String)
        ensures
            r@ == uuid_text(self.0),
    {
        uuid_to_string(self.0)
    }
}

} // verus!
