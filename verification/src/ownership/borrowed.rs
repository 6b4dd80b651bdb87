//! A process tree in which a parent only borrows its children: the children
//! live beside the parent and must outlive it.

use vstd::prelude::*;

verus! {

/// Lifecycle phase of a process.
#[derive(Debug, PartialEq, Eq, Structural)]
pub enum State {
    Running,
    Sleeping,
    Stopped,
}

/// What a process holds: its name as a sequence of characters, its state, and
/// the children that it refers to, in order.
pub struct ProcView<'a> {
    pub name: Seq<char>,
    pub state: State,
    pub children: Seq<&'a Proc<'a>>,
}

/// A process that refers to children owned elsewhere.
///
/// The lifetime `'a` ties the parent to its children: no child can be dropped
/// while a parent still refers to it.
#[derive(Debug)]
pub struct Proc<'a> {
    name: &'static str,
    state: State,
    children: Vec<&'a Proc<'a>>,
}

impl<'a> View for Proc<'a> {
    type V = ProcView<'a>;

    closed spec fn view(&self) -> ProcView<'a> {
        ProcView { name: self.name@, state: self.state, children: self.children@ }
    }
}

impl<'a> Proc<'a> {
    /// Builds a process from its name, its state and references to its
    /// children.
    pub fn new(name: &'static str, state: State, children: Vec<&'a Proc>) -> (p: Self)
        ensures
            p@ == (ProcView { name: name@, state: state, children: children@ }),
    {
        Proc { name: name, state: state, children: children }
    }

    /// The name of the process.
    pub fn name(&self) -> (name: &'static str)
        ensures
            name@ == self@.name,
    {
        self.name
    }

    /// The state of the process.
    pub fn state(&self) -> (state: &State)
        ensures
            *state == self@.state,
    {
        &self.state
    }

    /// The children that the process refers to, in the order in which they
    /// were given.
    pub fn children(&self) -> (children: &Vec<&'a Proc<'a>>)
        ensures
            children@ == self@.children,
    {
        &self.children
    }
}

} // verus!
