//! The state of the example subsystem: a condition flag and a label.

use vstd::prelude::*;

verus! {

/// An example subsystem whose state is a condition flag and a label.
pub struct ExampleSubsystem {
    cond: bool,
    string: String,
}

impl View for ExampleSubsystem {
    /// The condition flag and the label.
    type V = (bool, Seq<char>);

    closed spec fn view(&self) -> (bool, Seq<char>) {
        (self.cond, self.string@)
    }
}

impl ExampleSubsystem {
    /// A subsystem whose condition is off and whose label is "hi".
    pub fn new() -> (res: ExampleSubsystem)
        ensures
            res@ == (false, "hi"@),
    {
        ExampleSubsystem { cond: false, string: String::from_str("hi") }
    }

    /// Returns the condition flag.
    pub fn example_condition(&self) -> (res: bool)
        ensures
            res == self@.0,
    {
        self.cond
    }

    /// Sets the condition flag to `v`; the label stays as it was, and the
    /// condition read afterwards is `v`.
    pub fn set_condition(&mut self, v: bool)
        ensures
            final(self)@ == (v, old(self)@.1),
    {
        self.cond = v;
    }
}

} // verus!
