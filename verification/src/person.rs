//! The person value type and its mathematical content.

use crate::decimal::{decimal, decimal_string};
use vstd::prelude::*;
use vstd::string::*;

verus! {

/// The age from which a person counts as an adult.
pub const ADULT_AGE: u32 = 18;

/// A person with a name, an age and, optionally, an e-mail address.
///
/// Nothing is demanded of the three: a name may be empty and any age is
/// accepted.
#[derive(Debug)]
pub struct Person {
    name: String,
    age: u32,
    email: Option<String>,
}

/// What a [`Person`] holds, as mathematical values.
pub ghost struct PersonView {
    pub name: Seq<char>,
    pub age: nat,
    pub email: Option<Seq<char>>,
}

impl View for Person {
    type V = PersonView;

    closed spec fn view(&self) -> PersonView {
        PersonView {
            name: self.name@,
            age: self.age as nat,
            email: match self.email {
                Some(email) => Some(email@),
                None => None,
            },
        }
    }
}

impl Person {
    /// Makes a person with the given name and age and no e-mail address.
    pub fn new(name: String, age: u32) -> (person: Person)
        ensures
            person@ == (PersonView { name: name@, age: age as nat, email: None }),
    {
        Person { name, age, email: None }
    }

    /// The same person with `email` as the e-mail address, in place of any
    /// earlier one.
    pub fn with_email(self, email: String) -> (person: Person)
        ensures
            person@.name == self@.name,
            person@.age == self@.age,
            person@.email == Some(email@),
    {
        Person { name: self.name, age: self.age, email: Some(email) }
    }

    /// The greeting that this person gives to `other`: `Hello Bob, I'm Alice!`
    /// from Alice to Bob.
    pub fn greet(&self, other: &Person) -> (text: String)
        ensures
            text@ == "Hello "@ + other@.name + ", I'm "@ + self@.name + "!"@,
    {
        let mut text = String::from_str("Hello ");
        text.append(other.name.as_str());
        text.append(", I'm ");
        text.append(self.name.as_str());
        text.append("!");
        text
    }

    /// Whether this person has reached [`ADULT_AGE`].
    pub fn is_adult(&self) -> (adult: bool)
        ensures
            adult <==> self@.age >= ADULT_AGE,
    {
        self.age >= ADULT_AGE
    }

    /// The person's name.
    pub fn name(&self) -> (name: &str)
        ensures
            name@ == self@.name,
    {
        self.name.as_str()
    }

    /// The person in one line: the name, then the age in decimal notation, as
    /// in `Alice (age 30)`.
    pub fn to_string(&self) -> (text: String)
        ensures
            text@ == self@.name + " (age "@ + decimal(self@.age) + ")"@,
    {
        let age = decimal_string(self.age);
        let mut text = self.name.clone();
        text.append(" (age ");
        text.append(age.as_str());
        text.append(")");
        text
    }

    /// A person made from a name answers to exactly that name: whatever
    /// `Person::new(name, age)` returns, `name()` on it returns text equal to
    /// `name`.
    pub proof fn lemma_new_then_name(name: String, age: u32, person: Person, got: &str)
        requires
            call_ensures(Person::new, (name, age), person),
            call_ensures(Person::name, (&person,), got),
        ensures
            got@ == name@,
    {
    }
}

impl Clone for Person {
    /// A second person with the same name, age and e-mail address.
    fn clone(&self) -> (copy: Person)
        ensures
            copy == *self,
    {
        Person { name: self.name.clone(), age: self.age, email: self.email.clone() }
    }
}

} // verus!
