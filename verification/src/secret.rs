//! A string that holds a secret and shows it only when asked explicitly.

use vstd::prelude::*;

use crate::text::owned;

verus! {

/// A secret (an API key, a password): its displayed and debug forms are
/// redacted, and [`SecretString::expose`] is the only way to read it.
#[derive(Clone)]
pub struct SecretString {
    value: String,
}

impl View for SecretString {
    type V = Seq<char>;

    closed spec fn view(&self) -> Seq<char> {
        self.value@
    }
}

impl SecretString {
    /// The secret itself.
    pub fn expose(&self) -> (r: &str)
        ensures
            r@ == self@,
    {
        self.value.as_str()
    }

    /// The displayed form, which never shows the secret.
    pub fn to_string(&self) -> (r: String)
        ensures
            r@ == "[redacted]"@,
    {
        owned("[redacted]")
    }

    /// The debug form, which never shows the secret.
    pub fn debug_string(&self) -> (r: String)
        ensures
            r@ == "SecretString([redacted])"@,
    {
        owned("SecretString([redacted])")
    }
}

impl<'a> From<&'a str> for SecretString {
    fn from(value: &'a str) -> (s: Self)
        ensures
            s@ == value@,
    {
        SecretString { value: owned(value) }
    }
}

impl<'a> vstd::std_specs::convert::FromSpecImpl<&'a str> for SecretString {
    /// The generic `From` contract is not used for string slices: a spec value
    /// of the secret cannot be built from one; `from`'s own contract states
    /// what it returns.
    open spec fn obeys_from_spec() -> bool {
        false
    }

    open spec fn from_spec(v: &'a str) -> Self {
        choose|s: SecretString| s@ == v@
    }
}

impl From<String> for SecretString {
    fn from(value: String) -> (s: Self)
        ensures
            s@ == value@,
    {
        SecretString { value }
    }
}

impl vstd::std_specs::convert::FromSpecImpl<String> for SecretString {
    open spec fn obeys_from_spec() -> bool {
        true
    }

    closed spec fn from_spec(v: String) -> Self {
        SecretString { value: v }
    }
}

impl PartialEq for SecretString {
    fn eq(&self, other: &Self) -> (r: bool) {
        self.value == other.value
    }
}

impl vstd::std_specs::cmp::PartialEqSpecImpl for SecretString {
    open spec fn obeys_eq_spec() -> bool {
        true
    }

    open spec fn eq_spec(&self, other: &Self) -> bool {
        self@ == other@
    }
}

impl Eq for SecretString {
}

impl core::str::FromStr for SecretString {
    type Err = core::convert::Infallible;

    fn from_str(value: &str) -> (r: Result<Self, Self::Err>)
        ensures
            r matches Ok(secret) && secret@ == value@,
    {
        Ok(SecretString { value: owned(value) })
    }
}

} // verus!
