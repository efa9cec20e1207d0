//! The validated email address that keys every store.

use vstd::prelude::*;
use vstd::std_specs::cmp::PartialEqSpecImpl;

use crate::utils::text::contains_char;

verus! {

/// Whether `text` has the shape of an address: it holds the marker `@`.
pub open spec fn is_valid_email(text: Seq<char>) -> bool {
    text.contains('@')
}

/// An address that has passed [`Email::parse`]. It cannot be changed once
/// made; two addresses are equal when their text is, letter case included.
#[derive(Debug, Eq, Hash)]
pub struct Email(String);

impl View for Email {
    type V = Seq<char>;

    closed spec fn view(&self) -> Seq<char> {
        self.0@
    }
}

impl Email {
    #[verifier::type_invariant]
    spec fn well_formed(self) -> bool {
        is_valid_email(self.0@)
    }

    /// Accepts `email` exactly when it holds an `@`, and keeps its text
    /// unchanged.
    pub fn parse(email: &str) -> (parsed: Result<Self, String>)
        ensures
            parsed is Ok <==> is_valid_email(email@),
            parsed matches Ok(address) ==> address@ == email@,
            parsed matches Err(message) ==> message@ == "Invalid email address"@,
    {
        if contains_char(email, '@') {
            Ok(Email(email.to_string()))
        } else {
            Err("Invalid email address".to_string())
        }
    }
}

impl AsRef<str> for Email {
    /// The text of the address, which holds an `@`.
    fn as_ref(&self) -> (text: &str)
        ensures
            text@ == self@,
            is_valid_email(text@),
    {
        proof {
            use_type_invariant(self);
        }
        self.0.as_str()
    }
}

impl Clone for Email {
    fn clone(&self) -> (copy: Self)
        ensures
            copy@ == self@,
    {
        proof {
            use_type_invariant(self);
        }
        Email(self.0.clone())
    }
}

impl PartialEq for Email {
    fn eq(&self, other: &Self) -> (equal: bool) {
        self.0 == other.0
    }
}

impl PartialEqSpecImpl for Email {
    open spec fn obeys_eq_spec() -> bool {
        true
    }

    open spec fn eq_spec(&self, other: &Self) -> bool {
        self@ == other@
    }
}

} // verus!
