use vstd::prelude::*;

verus! {

/// Progress of bringing a node identity online for a seed: recovery is tried
/// first, and a failed recovery means that no node exists yet, so one is
/// registered. Credentials are of type `C`, service errors of type `E`.
pub enum Bootstrap<C, E> {
    /// Waiting for the outcome of recovering an existing node.
    Recovering,
    /// Recovery failed; waiting for the outcome of registering a new node.
    Registering,
    /// Credentials are in hand; `is_new_node` tells whether they were just registered.
    Ready { credentials: C, is_new_node: bool },
    /// Registration failed as well; the process cannot proceed.
    Failed { error: E },
}

/// What the caller must do next for a bootstrap in a given state.
#[derive(Debug, Clone, Copy, PartialEq, Eq)]
pub enum BootstrapAction {
    /// Ask the service to recover the node of the seed.
    Recover,
    /// Ask the service to register a new node for the seed, with the invite code.
    Register,
    /// Start the session with the credentials.
    Proceed,
    /// Stop with the registration error.
    Abort,
}

/// The state after a recovery outcome arrives.
pub open spec fn after_recovery<C, E>(s: Bootstrap<C, E>, outcome: Result<C, E>) -> Bootstrap<C, E> {
    match s {
        Bootstrap::Recovering => match outcome {
            Ok(c) => Bootstrap::Ready { credentials: c, is_new_node: false },
            Err(_) => Bootstrap::Registering,
        },
        _ => s,
    }
}

/// The state after a registration outcome arrives.
pub open spec fn after_registration<C, E>(s: Bootstrap<C, E>, outcome: Result<C, E>) -> Bootstrap<
    C,
    E,
> {
    match s {
        Bootstrap::Registering => match outcome {
            Ok(c) => Bootstrap::Ready { credentials: c, is_new_node: true },
            Err(e) => Bootstrap::Failed { error: e },
        },
        _ => s,
    }
}

/// The action that a state calls for.
pub open spec fn action_of<C, E>(s: Bootstrap<C, E>) -> BootstrapAction {
    match s {
        Bootstrap::Recovering => BootstrapAction::Recover,
        Bootstrap::Registering => BootstrapAction::Register,
        Bootstrap::Ready { .. } => BootstrapAction::Proceed,
        Bootstrap::Failed { .. } => BootstrapAction::Abort,
    }
}

impl<C, E> Bootstrap<C, E> {
    /// A bootstrap that has not asked anything yet: it starts by recovering.
    pub fn new() -> (r: Self)
        ensures
            r is Recovering,
    {
        Bootstrap::Recovering
    }

    /// Takes in the outcome of recovery. Outside `Recovering` nothing changes.
    pub fn on_recovery(self, outcome: Result<C, E>) -> (r: Self)
        ensures
            r == after_recovery(self, outcome),
    {
        match self {
            Bootstrap::Recovering => match outcome {
                Ok(c) => Bootstrap::Ready { credentials: c, is_new_node: false },
                Err(_) => Bootstrap::Registering,
            },
            other => other,
        }
    }

    /// Takes in the outcome of registration. Outside `Registering` nothing changes.
    pub fn on_registration(self, outcome: Result<C, E>) -> (r: Self)
        ensures
            r == after_registration(self, outcome),
    {
        match self {
            Bootstrap::Registering => match outcome {
                Ok(c) => Bootstrap::Ready { credentials: c, is_new_node: true },
                Err(e) => Bootstrap::Failed { error: e },
            },
            other => other,
        }
    }

    /// The next thing to do.
    pub fn next_action(&self) -> (r: BootstrapAction)
        ensures
            r == action_of(*self),
    {
        match self {
            Bootstrap::Recovering => BootstrapAction::Recover,
            Bootstrap::Registering => BootstrapAction::Register,
            Bootstrap::Ready { .. } => BootstrapAction::Proceed,
            Bootstrap::Failed { .. } => BootstrapAction::Abort,
        }
    }

    /// The credentials and the new-node flag, once ready.
    pub fn into_ready(self) -> (r: Result<(C, bool), Option<E>>)
        ensures
            self matches Bootstrap::Ready { credentials, is_new_node } ==> r == Ok::<
                (C, bool),
                Option<E>,
            >((credentials, is_new_node)),
            self matches Bootstrap::Failed { error } ==> r == Err::<(C, bool), Option<E>>(
                Some(error),
            ),
            (self is Recovering || self is Registering) ==> r == Err::<(C, bool), Option<E>>(
                None,
            ),
    {
        match self {
            Bootstrap::Ready { credentials, is_new_node } => Ok((credentials, is_new_node)),
            Bootstrap::Failed { error } => Err(Some(error)),
            _ => Err(None),
        }
    }
}

/// Recover first, register only on a failed recovery: a recovered node is not
/// new, a registered one is, and when both fail the bootstrap holds the
/// registration error and no credentials.
pub proof fn lemma_bootstrap_outcomes<C, E>(recovered: Result<C, E>, registered: Result<C, E>)
    ensures
        ({
            let s1 = after_recovery(Bootstrap::<C, E>::Recovering, recovered);
            let s2 = after_registration(s1, registered);
            &&& recovered matches Ok(c) ==> (s1 == (Bootstrap::<C, E>::Ready {
                credentials: c,
                is_new_node: false,
            }) && action_of(s1) == BootstrapAction::Proceed && s2 == s1)
            &&& recovered is Err ==> action_of(s1) == BootstrapAction::Register
            &&& recovered is Err ==> (registered matches Ok(c) ==> s2 == (Bootstrap::<C, E>::Ready {
                credentials: c,
                is_new_node: true,
            }))
            &&& recovered is Err ==> (registered matches Err(e) ==> (s2 == (Bootstrap::<
                C,
                E,
            >::Failed { error: e }) && action_of(s2) == BootstrapAction::Abort))
        }),
{
}

} // verus!
