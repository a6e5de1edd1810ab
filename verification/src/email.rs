//! An e-mail address: text that holds an at sign.

use vstd::prelude::*;
use crate::scalar::Scalar;

verus! {

/// An e-mail address. Any text with an at sign in it reads as one.
#[derive(Debug, PartialEq)]
pub struct Email(pub String);

impl View for Email {
    type V = Seq<char>;

    open spec fn view(&self) -> Seq<char> {
        self.0@
    }
}

impl Default for Email {
    /// The empty address, which does not read back as an address.
    fn default() -> (email: Email)
        ensures
            email@ == Seq::<char>::empty(),
    {
        Email(String::new())
    }
}

/// Whether an at sign occurs in `text`.
pub fn contains_at(text: &str) -> (found: bool)
    ensures
        found == text@.contains('@'),
{
    let n: usize = text.unicode_len();
    let mut i: usize = 0;
    while i < n
        invariant
            n == text@.len(),
            i <= n,
            forall|j: int| 0 <= j < i ==> text@[j] != '@',
        decreases n - i,
    {
        if text.get_char(i) == '@' {
            return true;
        }
        i += 1;
    }
    false
}

impl Scalar for Email {
    open spec fn default_value() -> Seq<char> {
        Seq::empty()
    }

    open spec fn text_of(value: Seq<char>) -> Seq<char> {
        value
    }

    open spec fn parsed(text: Seq<char>) -> Option<Seq<char>> {
        if text.contains('@') {
            Some(text)
        } else {
            None
        }
    }

    fn initial() -> (value: Email) {
        Email::default()
    }

    fn to_text(&self) -> (text: String) {
        self.0.clone()
    }

    fn parse(text: &str) -> (value: Option<Email>) {
        if contains_at(text) {
            Some(Email(text.to_owned()))
        } else {
            None
        }
    }
}

/// The default address does not read back: a fresh field of an address
/// yields nothing until an at sign is typed.
pub proof fn lemma_email_default_is_unreadable()
    ensures
        <Email as Scalar>::parsed(<Email as Scalar>::text_of(<Email as Scalar>::default_value()))
            is None,
{
}

} // verus!
