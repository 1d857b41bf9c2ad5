//! Checks on the credentials that the listener is started with.

use vstd::prelude::*;
use vstd::string::StrSliceExecFns;
use vstd::utf8::encode_utf8;

verus! {

/// Length in bytes of an access token.
pub const TOKEN_LENGTH: usize = 30;

/// Why a text is refused as an access token.
#[derive(Clone, Copy, Debug, PartialEq, Eq, Structural)]
pub enum TokenError {
    /// The text starts with `oauth:`.
    OauthPrefix,
    /// The text is not `TOKEN_LENGTH` bytes long.
    WrongLength,
}

impl TokenError {
    /// The reason in words.
    pub fn message(&self) -> (text: &'static str)
        ensures
            text@ == match *self {
                TokenError::OauthPrefix => "token should not have `oauth:` as a prefix"@,
                TokenError::WrongLength => "token needs to be 30 characters long"@,
            },
    {
        match self {
            TokenError::OauthPrefix => "token should not have `oauth:` as a prefix",
            TokenError::WrongLength => "token needs to be 30 characters long",
        }
    }
}

/// Whether `s` begins with the characters of `prefix`.
pub fn starts_with(s: &str, prefix: &str) -> (found: bool)
    ensures
        found == prefix@.is_prefix_of(s@),
{
    let n: usize = prefix.unicode_len();
    if s.unicode_len() < n {
        return false;
    }
    let mut i: usize = 0;
    while i < n
        invariant
            i <= n,
            n == prefix@.len(),
            n <= s@.len(),
            prefix@.subrange(0, i as int) =~= s@.subrange(0, i as int),
        decreases n - i,
    {
        if prefix.get_char(i) != s.get_char(i) {
            assert(prefix@[i as int] != s@.subrange(0, n as int)[i as int]);
            return false;
        }
        assert(prefix@.subrange(0, i + 1) =~= prefix@.subrange(0, i as int).push(prefix@[i as int]));
        assert(s@.subrange(0, i + 1) =~= s@.subrange(0, i as int).push(s@[i as int]));
        i = i + 1;
    }
    assert(prefix@.subrange(0, n as int) =~= prefix@);
    true
}

/// What `is_token` answers for the text `s`.
pub open spec fn spec_is_token(s: Seq<char>) -> Result<(), TokenError> {
    if "oauth:"@.is_prefix_of(s) {
        Err(TokenError::OauthPrefix)
    } else if encode_utf8(s).len() != TOKEN_LENGTH {
        Err(TokenError::WrongLength)
    } else {
        Ok(())
    }
}

/// Accepts `s` as an access token if it is a bare token: no `oauth:` in
/// front of it, and thirty bytes of UTF-8 long.
pub fn is_token(s: String) -> (checked: Result<(), TokenError>)
    ensures
        checked == spec_is_token(s@),
{
    if starts_with(s.as_str(), "oauth:") {
        return Err(TokenError::OauthPrefix);
    }
    if s.as_str().as_bytes().len() != TOKEN_LENGTH {
        return Err(TokenError::WrongLength);
    }
    Ok(())
}

/// A credential that is kept out of diagnostic output.
pub struct Secret(String);

impl View for Secret {
    type V = Seq<char>;

    closed spec fn view(&self) -> Seq<char> {
        self.0@
    }
}

impl Clone for Secret {
    fn clone(&self) -> (copy: Self)
        ensures
            copy@ == self@,
    {
        Secret(self.0.clone())
    }
}

impl Secret {
    /// Wraps the credential `text`.
    pub fn new(text: &str) -> (secret: Secret)
        ensures
            secret@ == text@,
    {
        Secret(text.to_owned())
    }

    /// The credential itself.
    pub fn secret(&self) -> (text: &str)
        ensures
            text@ == self@,
    {
        self.0.as_str()
    }

    /// What stands for the credential in diagnostic output.
    pub fn redacted(&self) -> (text: &'static str)
        ensures
            text@ == "[secret]"@,
    {
        "[secret]"
    }
}

impl std::str::FromStr for Secret {
    type Err = std::convert::Infallible;

    /// Every text is a credential: parsing never fails.
    fn from_str(s: &str) -> (parsed: Result<Self, Self::Err>)
        ensures
            parsed is Ok,
            parsed->Ok_0@ == s@,
    {
        Ok(Secret::new(s))
    }
}

} // verus!
