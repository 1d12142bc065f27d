//! People: a small value type for a named person with an age and an optional
//! e-mail address, the greetings such a person gives, and a filter that keeps
//! the adults of a list.
//!
//! Every function is verified against a contract stated over the mathematical
//! content of a [`Person`], its view.

pub mod adults;
pub mod decimal;
pub mod greetable;
pub mod person;

pub use adults::find_adults;
pub use greetable::Greetable;
pub use person::{Person, PersonView, ADULT_AGE};
