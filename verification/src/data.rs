//! A tagged data value read back as a string.

use vstd::prelude::*;

verus! {

/// A value that is either a text or a list of further values.
#[derive(Debug)]
pub enum Data {
    Text(String),
    List(Vec<Data>),
}

impl Data {
    /// This value as a string slice: the text itself, or a fixed stand-in
    /// when the value is no text.
    pub fn get_as<'a>(&'a self) -> (r: &'a str)
        ensures
            r@ == (match *self {
                Data::Text(s) => s@,
                Data::List(_) => "test1234"@,
            }),
    {
        match self {
            Data::Text(s) => s.as_str(),
            Data::List(_) => "test1234",
        }
    }
}

} // verus!
