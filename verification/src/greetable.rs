//! Things that can introduce themselves.

use crate::person::Person;
use vstd::prelude::*;
use vstd::string::*;

verus! {

/// Something that can introduce itself with a greeting.
///
/// An implementation says in `greeting_text` what its greeting is, and
/// `greeting` returns exactly that text.
pub trait Greetable {
    /// The characters of the greeting.
    spec fn greeting_text(&self) -> Seq<char>;

    /// The greeting of this value.
    fn greeting(&self) -> (text: String)
        ensures
            text@ == self.greeting_text(),
    ;
}

impl Greetable for Person {
    /// A person's greeting gives the person's name.
    open spec fn greeting_text(&self) -> Seq<char> {
        "Hi, I'm "@ + self@.name + "!"@
    }

    fn greeting(&self) -> (text: String) {
        let mut text = String::from_str("Hi, I'm ");
        text.append(self.name());
        text.append("!");
        text
    }
}

} // verus!
