//! The top of the supervision tree: which children the application starts,
//! under which names, and what it does when one of them fails.
//!
//! Supervising is the runtime's work. What is fixed here is what the runtime
//! is told.

use vstd::prelude::*;

verus! {

/// A child of the application.
#[derive(Clone, Copy, Debug, PartialEq, Eq, Structural, Hash)]
pub enum Child {
    ServiceRegistry,
    Router,
    Listener,
}

/// What a supervisor does when a child fails.
#[derive(Clone, Copy, Debug, PartialEq, Eq, Structural, Hash)]
pub enum RestartStrategy {
    /// Start the failed child again and leave its siblings alone.
    OneForOne,
    /// Start every child again.
    OneForAll,
    /// Start the failed child again, and those started after it.
    RestForOne,
}

/// The application: the supervisor of registry, router and listener.
#[derive(Clone, Copy, Debug, PartialEq, Eq, Structural)]
pub struct Application;

/// The children in the order in which they are started.
pub open spec fn children() -> Seq<Child> {
    seq![Child::ServiceRegistry, Child::Router, Child::Listener]
}

/// The name under which a child is registered with the runtime. The registry
/// has none here: its process registers itself.
pub open spec fn registered_name(child: Child) -> Option<Seq<char>> {
    match child {
        Child::ServiceRegistry => None,
        Child::Router => Some("router"@),
        Child::Listener => Some("listener"@),
    }
}

impl Application {
    /// The children in the order in which they are started.
    pub fn children() -> (all: Vec<Child>)
        ensures
            all@ == children(),
    {
        vec![Child::ServiceRegistry, Child::Router, Child::Listener]
    }

    /// What the application does when a child fails: it starts that child
    /// again, from its initial state, and leaves the others alone.
    pub fn strategy() -> (chosen: RestartStrategy)
        ensures
            chosen == RestartStrategy::OneForOne,
    {
        RestartStrategy::OneForOne
    }

    /// The name under which a child is registered with the runtime.
    pub fn registered_name(child: Child) -> (name: Option<String>)
        ensures
            match name {
                Some(text) => registered_name(child) == Some(text@),
                None => registered_name(child) is None,
            },
    {
        match child {
            Child::ServiceRegistry => None,
            Child::Router => Some("router".to_owned()),
            Child::Listener => Some("listener".to_owned()),
        }
    }
}

} // verus!
