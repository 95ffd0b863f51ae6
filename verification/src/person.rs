//! A person record with its stock contents.

use vstd::prelude::*;

verus! {

/// A named person.
#[derive(Debug)]
pub struct Person {
    pub name: String,
    pub age: u32,
    pub address: String,
}

impl Person {
    /// The stock person.
    pub fn new() -> (p: Person)
        ensures
            p.name@ == "andy"@,
            p.age == 18,
            p.address@ == "test"@,
    {
        Person { name: "andy".to_owned(), age: 18, address: "test".to_owned() }
    }
}

} // verus!
