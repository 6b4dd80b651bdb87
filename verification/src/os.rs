//! A toy operating-system view of processes: lifecycle states, what the
//! scheduler does for each of them, and descriptors ordered by priority.

use std::cmp::Ordering;
use vstd::prelude::*;
use vstd::std_specs::cmp::PartialEqSpec;
use vstd::std_specs::cmp::PartialOrdSpec;

verus! {

/// Lifecycle phase of a process.
///
/// The variants are declared from the most urgent to the least urgent, so the
/// derived order agrees with [`State::rank`].
#[derive(Debug, PartialEq, Eq, PartialOrd, Ord, Structural)]
pub enum State {
    Sleeping,
    Stopped,
    Running,
}

impl State {
    /// The scheduling rank of a state: 1 for `Sleeping`, 2 for `Stopped`,
    /// 3 for `Running`. A lower rank is served first.
    pub open spec fn spec_rank(&self) -> int {
        match self {
            State::Sleeping => 1,
            State::Stopped => 2,
            State::Running => 3,
        }
    }

    /// The scheduling rank of this state.
    pub fn rank(&self) -> (r: u8)
        ensures
            r == self.spec_rank(),
    {
        match self {
            State::Sleeping => 1,
            State::Stopped => 2,
            State::Running => 3,
        }
    }
}

/// What the scheduler does next for a process.
#[derive(Debug, PartialEq, Eq, Structural)]
pub enum Action {
    /// Stop the process and schedule another one.
    StopAndScheduleAnotherProcess,
    /// Assign the process to an available CPU core.
    AssignToAvailableCpuCore,
    /// Check whether the data is ready and wake the process if so.
    CheckIfDataReadyAndWakeIfSo,
}

/// The action that a process in state `curr_state` calls for.
pub open spec fn action_for(curr_state: State) -> Action {
    match curr_state {
        State::Running => Action::StopAndScheduleAnotherProcess,
        State::Stopped => Action::AssignToAvailableCpuCore,
        State::Sleeping => Action::CheckIfDataReadyAndWakeIfSo,
    }
}

/// Decides what the scheduler does for a process in state `curr_state`.
///
/// The decision is returned rather than carried out, so the caller performs it.
pub fn manage_process(curr_state: State) -> (action: Action)
    ensures
        action == action_for(curr_state),
{
    match curr_state {
        State::Running => Action::StopAndScheduleAnotherProcess,
        State::Stopped => Action::AssignToAvailableCpuCore,
        State::Sleeping => Action::CheckIfDataReadyAndWakeIfSo,
    }
}

/// Why a process was stopped.
#[derive(Debug, PartialEq, Eq, PartialOrd, Ord, Structural)]
pub enum StopKind {
    /// A stop that the process cannot refuse.
    Mandatory,
    /// A stop that the process may ignore.
    Ignorable,
}

/// A lifecycle phase together with the data that belongs to it.
pub enum DetailedState {
    Running,
    Stopped { reason: StopKind },
    Sleeping { start_time: u64 },
}

/// What a descriptor holds, as plain mathematical values.
pub struct ProcView<T> {
    pub pid: T,
    pub state: State,
    pub children: Seq<T>,
}

/// A process descriptor: an identifier, a state and the identifiers of the
/// children.
///
/// Descriptors are compared by state alone: identifier and children play no
/// part in `==`, `<` or [`Proc::cmp`]. To order a whole queue, use
/// [`sort_by_priority`].
#[derive(Debug)]
pub struct Proc<T> {
    pid: T,
    state: State,
    children: Vec<T>,
}

impl<T> View for Proc<T> {
    type V = ProcView<T>;

    closed spec fn view(&self) -> ProcView<T> {
        ProcView { pid: self.pid, state: self.state, children: self.children@ }
    }
}

/// How two states compare: the one with the lower rank is `Less`.
pub open spec fn priority_order(a: State, b: State) -> Ordering {
    if a.spec_rank() < b.spec_rank() {
        Ordering::Less
    } else if a.spec_rank() == b.spec_rank() {
        Ordering::Equal
    } else {
        Ordering::Greater
    }
}

impl<T> Proc<T> {
    /// Creates a stopped process without children.
    pub fn new(pid: T) -> (p: Self)
        ensures
            p@ == (ProcView { pid, state: State::Stopped, children: Seq::<T>::empty() }),
    {
        Proc { pid, state: State::Stopped, children: Vec::new() }
    }

    /// Moves the process to `new_state`; identifier and children stay.
    pub fn set_state(&mut self, new_state: State)
        ensures
            final(self)@ == (ProcView { state: new_state, ..old(self)@ }),
    {
        self.state = new_state;
    }

    /// The identifier of the process.
    pub fn pid(&self) -> (pid: &T)
        ensures
            *pid == self@.pid,
    {
        &self.pid
    }

    /// The current state of the process.
    pub fn state(&self) -> (state: &State)
        ensures
            *state == self@.state,
    {
        &self.state
    }

    /// The identifiers of the children.
    pub fn children(&self) -> (children: &Vec<T>)
        ensures
            children@ == self@.children,
    {
        &self.children
    }

    /// Compares two descriptors by the rank of their states.
    pub fn cmp(&self, other: &Self) -> (order: Ordering)
        ensures
            order == priority_order(self@.state, other@.state),
    {
        let mine: u8 = self.state.rank();
        let theirs: u8 = other.state.rank();
        if mine < theirs {
            Ordering::Less
        } else if mine == theirs {
            Ordering::Equal
        } else {
            Ordering::Greater
        }
    }
}

/// The test "is in state `state`", as a predicate on descriptors.
pub open spec fn in_state<T>(state: State) -> spec_fn(Proc<T>) -> bool {
    |p: Proc<T>| p@.state == state
}

/// The descriptors of `queue` in priority order: the sleeping ones first, then
/// the stopped ones, then the running ones. Descriptors in the same state keep
/// the order that they have in `queue`.
pub open spec fn by_priority<T>(queue: Seq<Proc<T>>) -> Seq<Proc<T>> {
    queue.filter(in_state(State::Sleeping)) + queue.filter(in_state(State::Stopped))
        + queue.filter(in_state(State::Running))
}

/// Sorts a queue of descriptors by priority, keeping descriptors in the same
/// state in the order in which they stood.
pub fn sort_by_priority<T>(queue: &mut Vec<Proc<T>>)
    ensures
        final(queue)@ == by_priority(old(queue)@),
{
    let mut pending: Vec<Proc<T>> = Vec::new();
    std::mem::swap(queue, &mut pending);
    let ghost incoming = pending@;
    let mut stopped: Vec<Proc<T>> = Vec::new();
    let mut running: Vec<Proc<T>> = Vec::new();
    for p in it: pending
        invariant
            it.seq() == incoming,
            queue@ == incoming.take(it.index()).filter(in_state(State::Sleeping)),
            stopped@ == incoming.take(it.index()).filter(in_state(State::Stopped)),
            running@ == incoming.take(it.index()).filter(in_state(State::Running)),
    {
        proof {
            let seen = incoming.take(it.index());
            assert(incoming.take(it.index() + 1) == seen.push(p));
            seen.lemma_filter_push(p, in_state(State::Sleeping));
            seen.lemma_filter_push(p, in_state(State::Stopped));
            seen.lemma_filter_push(p, in_state(State::Running));
        }
        match p.state {
            State::Sleeping => queue.push(p),
            State::Stopped => stopped.push(p),
            State::Running => running.push(p),
        }
    }
    assert(incoming.take(incoming.len() as int) == incoming);
    queue.append(&mut stopped);
    queue.append(&mut running);
}

impl<T> PartialOrd for Proc<T> {
    fn partial_cmp(&self, other: &Self) -> (order: Option<Ordering>) {
        Some(self.cmp(other))
    }
}

impl<T> vstd::std_specs::cmp::PartialOrdSpecImpl for Proc<T> {
    open spec fn obeys_partial_cmp_spec() -> bool {
        true
    }

    open spec fn partial_cmp_spec(&self, other: &Self) -> Option<Ordering> {
        Some(priority_order(self@.state, other@.state))
    }
}

impl<T> PartialEq for Proc<T> {
    fn eq(&self, other: &Self) -> (same: bool) {
        self.state == other.state
    }
}

impl<T> vstd::std_specs::cmp::PartialEqSpecImpl for Proc<T> {
    open spec fn obeys_eq_spec() -> bool {
        true
    }

    open spec fn eq_spec(&self, other: &Self) -> bool {
        self@.state == other@.state
    }
}

impl<T> Eq for Proc<T> {}

/// Equality looks at the state alone: two descriptors in the same state are
/// equal and compare as `Equal`, whatever their identifiers and children.
pub proof fn same_state_means_equal<T>(a: Proc<T>, b: Proc<T>)
    requires
        a@.state == b@.state,
    ensures
        a.eq_spec(&b),
        a.partial_cmp_spec(&b) == Some(Ordering::Equal),
{
}

/// The comparison agrees with equality: two descriptors compare as `Equal`
/// exactly when `==` holds of them, which is exactly when their states are
/// the same.
pub proof fn order_agrees_with_equality<T>(a: Proc<T>, b: Proc<T>)
    ensures
        a.eq_spec(&b) <==> a@.state == b@.state,
        a.eq_spec(&b) <==> priority_order(a@.state, b@.state) == Ordering::Equal,
{
}

/// The comparison is a total order on states: swapping the arguments swaps
/// `Less` and `Greater`, and `Less` chains.
pub proof fn priority_order_is_total(a: State, b: State, c: State)
    ensures
        priority_order(a, a) == Ordering::Equal,
        priority_order(a, b) == Ordering::Less <==> priority_order(b, a) == Ordering::Greater,
        priority_order(a, b) == Ordering::Equal <==> a == b,
        priority_order(a, b) == Ordering::Less && priority_order(b, c) == Ordering::Less
            ==> priority_order(a, c) == Ordering::Less,
{
}

/// A sleeping process comes before a stopped one, and a stopped one before a
/// running one.
pub proof fn sleeping_then_stopped_then_running()
    ensures
        priority_order(State::Sleeping, State::Stopped) == Ordering::Less,
        priority_order(State::Stopped, State::Running) == Ordering::Less,
        priority_order(State::Sleeping, State::Running) == Ordering::Less,
{
}

/// In a queue in priority order the ranks never go down: no descriptor
/// compares as `Greater` with one that stands behind it.
pub proof fn by_priority_is_ordered<T>(queue: Seq<Proc<T>>)
    ensures
        ({
            let sorted = by_priority(queue);
            forall|i: int, j: int|
                #![trigger sorted[i], sorted[j]]
                0 <= i < j < sorted.len() ==> {
                    &&& sorted[i]@.state.spec_rank() <= sorted[j]@.state.spec_rank()
                    &&& priority_order(sorted[i]@.state, sorted[j]@.state) != Ordering::Greater
                }
        }),
{
    let sleeping = queue.filter(in_state(State::Sleeping));
    let stopped = queue.filter(in_state(State::Stopped));
    let running = queue.filter(in_state(State::Running));
    assert forall|i: int| 0 <= i < sleeping.len() implies sleeping[i]@.state
        == State::Sleeping by {
        queue.lemma_filter_pred(in_state(State::Sleeping), i);
    }
    assert forall|i: int| 0 <= i < stopped.len() implies stopped[i]@.state == State::Stopped by {
        queue.lemma_filter_pred(in_state(State::Stopped), i);
    }
    assert forall|i: int| 0 <= i < running.len() implies running[i]@.state == State::Running by {
        queue.lemma_filter_pred(in_state(State::Running), i);
    }
}

/// Putting a queue in priority order neither adds nor drops a descriptor.
pub proof fn by_priority_is_permutation<T>(queue: Seq<Proc<T>>)
    ensures
        by_priority(queue).to_multiset() == queue.to_multiset(),
    decreases queue.len(),
{
    broadcast use vstd::seq_lib::lemma_multiset_commutative, vstd::seq_lib::to_multiset_build;

    if queue.len() == 0 {
        assert(by_priority(queue) =~= queue);
    } else {
        let rest = queue.drop_last();
        let p = queue.last();
        assert(queue == rest.push(p));
        by_priority_is_permutation(rest);
        rest.lemma_filter_push(p, in_state(State::Sleeping));
        rest.lemma_filter_push(p, in_state(State::Stopped));
        rest.lemma_filter_push(p, in_state(State::Running));
        assert(by_priority(queue).to_multiset() =~= by_priority(rest).to_multiset().insert(p));
    }
}

/// Filtering twice by state keeps the descriptors that pass both tests.
proof fn filter_twice_by_state<T>(queue: Seq<Proc<T>>, first: State, second: State)
    ensures
        queue.filter(in_state(first)).filter(in_state(second)) == if first == second {
            queue.filter(in_state(first))
        } else {
            Seq::<Proc<T>>::empty()
        },
    decreases queue.len(),
{
    if queue.len() == 0 {
        assert(queue.filter(in_state(first)) =~= queue);
    } else {
        let rest = queue.drop_last();
        let p = queue.last();
        assert(queue == rest.push(p));
        filter_twice_by_state(rest, first, second);
        rest.lemma_filter_push(p, in_state(first));
        rest.filter(in_state(first)).lemma_filter_push(p, in_state(second));
    }
}

/// Putting a queue in priority order keeps the descriptors of each state in
/// the order that they had.
pub proof fn by_priority_is_stable<T>(queue: Seq<Proc<T>>, state: State)
    ensures
        by_priority(queue).filter(in_state(state)) == queue.filter(in_state(state)),
{
    let sleeping = queue.filter(in_state(State::Sleeping));
    let stopped = queue.filter(in_state(State::Stopped));
    let running = queue.filter(in_state(State::Running));
    Seq::filter_distributes_over_add(sleeping + stopped, running, in_state(state));
    Seq::filter_distributes_over_add(sleeping, stopped, in_state(state));
    filter_twice_by_state(queue, State::Sleeping, state);
    filter_twice_by_state(queue, State::Stopped, state);
    filter_twice_by_state(queue, State::Running, state);
    assert(by_priority(queue).filter(in_state(state)) =~= queue.filter(in_state(state)));
}

/// Three descriptors that arrive running, sleeping and stopped leave in the
/// order sleeping, stopped, running.
pub proof fn running_sleeping_stopped_are_reordered<T>(
    running: Proc<T>,
    sleeping: Proc<T>,
    stopped: Proc<T>,
)
    requires
        running@.state == State::Running,
        sleeping@.state == State::Sleeping,
        stopped@.state == State::Stopped,
    ensures
        by_priority(seq![running, sleeping, stopped]) == seq![sleeping, stopped, running],
{
    let queue = seq![running, sleeping, stopped];
    let two = seq![running, sleeping];
    let one = seq![running];
    assert(queue == two.push(stopped));
    assert(two == one.push(sleeping));
    assert(one == Seq::<Proc<T>>::empty().push(running));
    Seq::<Proc<T>>::empty().lemma_filter_push(running, in_state(State::Sleeping));
    Seq::<Proc<T>>::empty().lemma_filter_push(running, in_state(State::Stopped));
    Seq::<Proc<T>>::empty().lemma_filter_push(running, in_state(State::Running));
    one.lemma_filter_push(sleeping, in_state(State::Sleeping));
    one.lemma_filter_push(sleeping, in_state(State::Stopped));
    one.lemma_filter_push(sleeping, in_state(State::Running));
    two.lemma_filter_push(stopped, in_state(State::Sleeping));
    two.lemma_filter_push(stopped, in_state(State::Stopped));
    two.lemma_filter_push(stopped, in_state(State::Running));
    assert(by_priority(queue) =~= seq![sleeping, stopped, running]);
}

/// A queue that is already in priority order stays as it is.
pub proof fn by_priority_is_idempotent<T>(queue: Seq<Proc<T>>)
    ensures
        by_priority(by_priority(queue)) == by_priority(queue),
{
    by_priority_is_stable(queue, State::Sleeping);
    by_priority_is_stable(queue, State::Stopped);
    by_priority_is_stable(queue, State::Running);
}

} // verus!
