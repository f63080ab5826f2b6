//! Draining the process: one signal tells every component to stop taking new
//! work, and the process leaves once each of them has ended.

use vstd::prelude::*;

verus! {

/// The coordinator as mathematical values.
pub struct CoordinatorView {
    /// The shutdown signal has been raised.
    pub stopping: bool,
    /// How many components have not ended yet.
    pub live: nat,
}

/// Keeps count of the running components (the HTTP listener and each
/// background task) from start to exit.
#[derive(Debug)]
pub struct Coordinator {
    stopping: bool,
    live: usize,
}

impl View for Coordinator {
    type V = CoordinatorView;

    closed spec fn view(&self) -> CoordinatorView {
        CoordinatorView { stopping: self.stopping, live: self.live as nat }
    }
}

impl CoordinatorView {
    /// The coordinator after one more component has ended. A report beyond
    /// the number of components changes nothing.
    pub open spec fn ended(self) -> CoordinatorView {
        CoordinatorView {
            stopping: self.stopping,
            live: if self.live > 0 {
                (self.live - 1) as nat
            } else {
                0
            },
        }
    }

    /// The coordinator after `count` more components have ended.
    pub open spec fn ended_many(self, count: nat) -> CoordinatorView
        decreases count,
    {
        if count == 0 {
            self
        } else {
            self.ended().ended_many((count - 1) as nat)
        }
    }

    /// The process may leave: it was told to, and nothing is running.
    pub open spec fn drained(self) -> bool {
        self.stopping && self.live == 0
    }
}

/// The line that reports a component which ended with an internal fault.
pub open spec fn fault_line(fault: Seq<char>) -> Seq<char> {
    "Error on shutdown: "@ + fault
}

impl Coordinator {
    /// A coordinator for `components` running components, not yet stopping.
    pub fn new(components: usize) -> (coordinator: Coordinator)
        ensures
            coordinator@ == (CoordinatorView { stopping: false, live: components as nat }),
    {
        Coordinator { stopping: false, live: components }
    }

    /// Records the shutdown signal. Returns whether this was the first one,
    /// which is the one to pass on to every component.
    pub fn signal(&mut self) -> (first: bool)
        ensures
            first == !old(self)@.stopping,
            final(self)@ == (CoordinatorView { stopping: true, live: old(self)@.live }),
    {
        let first = !self.stopping;
        self.stopping = true;
        first
    }

    /// Whether new work (a request, a sweep, a prune) may still begin.
    pub fn accepts_work(&self) -> (open: bool)
        ensures
            open == !self@.stopping,
    {
        !self.stopping
    }

    /// Records that a component has ended. If it ended with an internal
    /// fault, the line that reports it is returned; the fault changes
    /// nothing else, and the others are still waited for.
    pub fn component_ended(&mut self, fault: Option<&str>) -> (report: Option<String>)
        ensures
            final(self)@ == old(self)@.ended(),
            report is Some == fault is Some,
            fault matches Some(text) ==> (report matches Some(line) && line@ == fault_line(text@)),
    {
        if self.live > 0 {
            self.live = self.live - 1;
        }
        match fault {
            Some(text) => {
                let mut line = String::from_str("Error on shutdown: ");
                line.append(text);
                Some(line)
            },
            None => None,
        }
    }

    /// Whether the process may leave.
    pub fn drained(&self) -> (done: bool)
        ensures
            done == self@.drained(),
    {
        self.stopping && self.live == 0
    }
}

/// Once the signal is raised, the process leaves exactly when every component
/// has ended, and not before: work in progress is waited for, and a component
/// that ends with a fault counts as ended like any other.
pub proof fn lemma_drains_when_all_ended(coordinator: CoordinatorView, count: nat)
    requires
        coordinator.stopping,
    ensures
        coordinator.ended_many(count).stopping,
        coordinator.ended_many(count).drained() <==> count >= coordinator.live,
    decreases count,
{
    if count > 0 {
        lemma_drains_when_all_ended(coordinator.ended(), (count - 1) as nat);
    }
}

/// Before the signal is raised the process never leaves, however many
/// components have ended.
pub proof fn lemma_never_drained_unsignalled(coordinator: CoordinatorView, count: nat)
    requires
        !coordinator.stopping,
    ensures
        !coordinator.ended_many(count).drained(),
    decreases count,
{
    if count > 0 {
        lemma_never_drained_unsignalled(coordinator.ended(), (count - 1) as nat);
    }
}

} // verus!
