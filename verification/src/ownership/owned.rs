//! A process tree in which every parent owns its children: building a parent
//! moves the children into it.

use vstd::prelude::*;

verus! {

/// Lifecycle phase of a process.
#[derive(Debug, PartialEq, Eq, Structural)]
pub enum State {
    Running,
    Stopped,
    Sleeping,
}

/// What a process holds: its name as a sequence of characters, its state, and
/// the children that it owns, in order.
pub struct ProcView {
    pub name: Seq<char>,
    pub state: State,
    pub children: Seq<Proc>,
}

/// A process that owns its children.
///
/// The name is a string literal, so it outlives every process that bears it.
#[derive(Debug)]
pub struct Proc {
    name: &'static str,
    state: State,
    children: Vec<Proc>,
}

impl View for Proc {
    type V = ProcView;

    closed spec fn view(&self) -> ProcView {
        ProcView { name: self.name@, state: self.state, children: self.children@ }
    }
}

impl Proc {
    /// Builds a process from its name, its state and the children that it
    /// takes ownership of.
    pub fn new(name: &'static str, state: State, children: Vec<Proc>) -> (p: Self)
        ensures
            p@ == (ProcView { name: name@, state: state, children: children@ }),
    {
        Proc { name: name, state: state, children: children }
    }

    /// The name of the process.
    pub fn name(&self) -> (name: &'static str)
        ensures
            name@ == self@.name,
    {
        self.name
    }

    /// The state of the process.
    pub fn state(&self) -> (state: &State)
        ensures
            *state == self@.state,
    {
        &self.state
    }

    /// The children of the process, in the order in which they were given.
    pub fn children(&self) -> (children: &Vec<Proc>)
        ensures
            children@ == self@.children,
    {
        &self.children
    }
}

} // verus!
