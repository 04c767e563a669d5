//! A person with a name, an age and, optionally, an e-mail address.

use crate::text::{decimal, decimal_text};
use vstd::prelude::*;
use vstd::string::StringExecFns;

verus! {

/// The age from which a person counts as an adult.
pub const ADULT_AGE: u32 = 18;

/// What is known of one person.
#[derive(Debug, Clone)]
pub struct Person {
    pub name: String,
    pub age: u32,
    pub email: Option<String>,
}

impl Person {
    /// How the person is written out: the name, then in parentheses the age
    /// and, where there is one, the e-mail address after a comma.
    pub open spec fn text(&self) -> Seq<char> {
        let opening = self.name@ + seq![' ', '('] + decimal(self.age as nat);
        match self.email {
            Some(email) => opening + seq![',', ' '] + email@ + seq![')'],
            None => opening + seq![')'],
        }
    }

    /// A person without an e-mail address.
    pub fn new(name: String, age: u32) -> (person: Self)
        ensures
            person == (Person { name, age, email: None }),
    {
        Self { name, age, email: None }
    }

    /// The same person with `email` as the address, in place of any earlier
    /// one.
    pub fn with_email(self, email: String) -> (person: Self)
        ensures
            person == (Person { name: self.name, age: self.age, email: Some(email) }),
    {
        let mut person = self;
        person.email = Some(email);
        person
    }

    /// Whether the person has reached the age of an adult.
    pub fn is_adult(&self) -> (adult: bool)
        ensures
            adult == (self.age >= ADULT_AGE),
    {
        self.age >= ADULT_AGE
    }

    /// Writes the person out, as `text` describes.
    pub fn to_text(&self) -> (written: String)
        ensures
            written@ == self.text(),
    {
        proof {
            reveal_strlit(" (");
            reveal_strlit(", ");
            reveal_strlit(")");
        }
        let mut written = self.name.clone();
        written.append(" (");
        written.append(decimal_text(self.age).as_str());
        if let Some(email) = &self.email {
            written.append(", ");
            written.append(email.as_str());
        }
        written.append(")");
        assert(written@ =~= self.text());
        written
    }
}

} // verus!
