//! A verified adapter: client code that speaks one request interface is
//! handed an incompatible service through an adapting wrapper.

use vstd::prelude::*;

verus! {

/// The interface the client code calls.
pub trait Target {
    /// What a call of [`Target::request`] answers.
    spec fn response(&self) -> Seq<char>;

    fn request(&self) -> (r: String)
        ensures
            r@ == self.response(),
    ;
}

/// A service that already speaks the target interface.
#[derive(Debug)]
pub struct OrdinaryTarget;

impl Target for OrdinaryTarget {
    open spec fn response(&self) -> Seq<char> {
        "Ordinary request"@
    }

    fn request(&self) -> (r: String) {
        "Ordinary request".to_owned()
    }
}

/// The incompatible service: it answers only its own specific request.
#[derive(Debug)]
pub struct SpecificTarget;

impl SpecificTarget {
    pub fn specific_request(&self) -> (r: String)
        ensures
            r@ == "test"@,
    {
        "test".to_owned()
    }
}

/// Wraps the incompatible service so the client can call it as a target.
#[derive(Debug)]
pub struct TargetAdapter {
    pub adaptee: SpecificTarget,
}

impl TargetAdapter {
    pub fn new(adaptee: SpecificTarget) -> (a: TargetAdapter)
        ensures
            a.adaptee == adaptee,
    {
        TargetAdapter { adaptee }
    }
}

impl Target for TargetAdapter {
    open spec fn response(&self) -> Seq<char> {
        "test"@
    }

    fn request(&self) -> (r: String) {
        self.adaptee.specific_request()
    }
}

/// Call any object of the target interface and hand back its answer.
pub fn call<T: Target>(target: T) -> (r: String)
    ensures
        r@ == target.response(),
{
    target.request()
}

} // verus!
