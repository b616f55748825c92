//! The serialized engine access guard.
//!
//! The engine is one instance for the life of the process and must not be
//! entered by two calls at once. The guard owns the engine and keeps the one
//! fact that decides who may enter: which call, if any, is inside. A call
//! enters only when nobody is inside, and only the call that is inside can
//! leave. The guard never waits: a call that is refused is told so, and it
//! is for the caller to wait and ask again.
//!
//! The guard also keeps, as ghost state, the history of every entry and
//! exit it has granted. The history is what the central invariant is stated
//! over: the stretches that calls spend inside the engine never overlap.

use vstd::prelude::*;

verus! {

/// An entry into the engine or an exit from it, by the call that is named.
pub enum GuardEvent {
    Enter(u64),
    Exit(u64),
}

/// Whether `later` may come directly after `earlier`: a call enters only
/// after an exit, and only the call that entered last can leave.
pub open spec fn follows(earlier: GuardEvent, later: GuardEvent) -> bool {
    match later {
        GuardEvent::Enter(_) => earlier is Exit,
        GuardEvent::Exit(call) => earlier == GuardEvent::Enter(call),
    }
}

/// A history that begins with an entry and in which every entry is followed
/// by the exit of the same call before anyone enters again.
pub open spec fn serialized(history: Seq<GuardEvent>) -> bool {
    &&& history.len() > 0 ==> history[0] is Enter
    &&& forall|i: int, j: int|
        0 <= i && j == i + 1 && j < history.len() ==> follows(
            #[trigger] history[i],
            #[trigger] history[j],
        )
}

/// The call that is inside the engine at the end of a history.
pub open spec fn inside(history: Seq<GuardEvent>) -> Option<u64> {
    if history.len() == 0 {
        None
    } else {
        match history.last() {
            GuardEvent::Enter(call) => Some(call),
            GuardEvent::Exit(_) => None,
        }
    }
}

/// Who is inside the engine, and the history that led there.
struct Ledger {
    holder: Option<u64>,
    history: Ghost<Seq<GuardEvent>>,
}

impl Ledger {
    #[verifier::type_invariant]
    spec fn consistent(&self) -> bool {
        &&& serialized(self.history@)
        &&& self.holder == inside(self.history@)
    }

    fn new() -> (ledger: Self)
        ensures
            ledger.holder is None,
            ledger.history@ == Seq::<GuardEvent>::empty(),
    {
        Ledger { holder: None, history: Ghost(Seq::empty()) }
    }

    fn holder(&self) -> (call: Option<u64>)
        ensures
            call == self.holder,
            call == inside(self.history@),
            serialized(self.history@),
    {
        proof {
            use_type_invariant(self);
        }
        self.holder
    }

    fn enter(&mut self, call: u64)
        requires
            old(self).holder is None,
        ensures
            final(self).holder == Some(call),
            final(self).history@ == old(self).history@.push(GuardEvent::Enter(call)),
            serialized(final(self).history@),
    {
        proof {
            use_type_invariant(&*self);
        }
        *self = Ledger {
            holder: Some(call),
            history: Ghost(self.history@.push(GuardEvent::Enter(call))),
        };
    }

    fn leave(&mut self, call: u64)
        requires
            old(self).holder == Some(call),
        ensures
            final(self).holder is None,
            final(self).history@ == old(self).history@.push(GuardEvent::Exit(call)),
            serialized(final(self).history@),
    {
        proof {
            use_type_invariant(&*self);
        }
        *self = Ledger {
            holder: None,
            history: Ghost(self.history@.push(GuardEvent::Exit(call))),
        };
    }
}

/// The guard of an engine of type `E`.
///
/// The guard owns the engine from the day it is made. Nobody else holds a
/// reference to the engine: an operation reaches it only inside
/// [`EngineGuard::with_engine`], for as long as it runs.
pub struct EngineGuard<E> {
    engine: E,
    ledger: Ledger,
}

impl<E> EngineGuard<E> {
    /// The engine in its present state.
    pub closed spec fn engine(&self) -> E {
        self.engine
    }

    /// The call that holds the engine, if one does.
    pub closed spec fn holder(&self) -> Option<u64> {
        self.ledger.holder
    }

    /// Every entry and exit granted so far, oldest first.
    pub closed spec fn history(&self) -> Seq<GuardEvent> {
        self.ledger.history@
    }

    /// Puts an engine behind a guard. Nobody has entered it yet.
    pub fn new(engine: E) -> (guard: Self)
        ensures
            guard.engine() == engine,
            guard.holder() is None,
            guard.history() == Seq::<GuardEvent>::empty(),
    {
        EngineGuard { engine, ledger: Ledger::new() }
    }

    /// The call that holds the engine, if one does.
    pub fn current(&self) -> (call: Option<u64>)
        ensures
            call == self.holder(),
            call == inside(self.history()),
            serialized(self.history()),
    {
        self.ledger.holder()
    }

    /// Asks for the engine on behalf of `call`.
    ///
    /// Access is granted exactly when nobody holds the engine. A call that
    /// is refused has changed nothing: it waits and asks again.
    pub fn acquire(&mut self, call: u64) -> (granted: bool)
        ensures
            granted == (old(self).holder() is None),
            final(self).holder() == if granted {
                Some(call)
            } else {
                old(self).holder()
            },
            final(self).history() == if granted {
                old(self).history().push(GuardEvent::Enter(call))
            } else {
                old(self).history()
            },
            final(self).engine() == old(self).engine(),
            serialized(final(self).history()),
    {
        match self.ledger.holder() {
            Some(_) => false,
            None => {
                self.ledger.enter(call);
                true
            },
        }
    }

    /// Gives the engine back on behalf of `call`.
    ///
    /// Only the call that holds the engine can give it back, and it does so
    /// whatever the engine made of its work. A release by anyone else
    /// changes nothing.
    pub fn release(&mut self, call: u64) -> (released: bool)
        ensures
            released == (old(self).holder() == Some(call)),
            final(self).holder() == if released {
                None
            } else {
                old(self).holder()
            },
            final(self).history() == if released {
                old(self).history().push(GuardEvent::Exit(call))
            } else {
                old(self).history()
            },
            final(self).engine() == old(self).engine(),
            serialized(final(self).history()),
    {
        match self.ledger.holder() {
            Some(holder) => {
                if holder == call {
                    self.ledger.leave(call);
                    true
                } else {
                    false
                }
            },
            None => false,
        }
    }

    /// Runs `operation` on the engine, with the engine to itself, on behalf
    /// of `call`.
    ///
    /// Where nobody holds the engine, `call` enters, the operation runs to
    /// its end, and `call` leaves again whatever the operation came to: the
    /// guard is free afterwards. Where somebody holds the engine, nothing
    /// runs, the engine is not touched and the operation is handed back.
    pub fn with_engine<R, F: FnOnce(&mut E) -> R>(&mut self, call: u64, operation: F) -> (outcome:
        Result<R, F>)
        requires
            forall|engine: &mut E| call_requires(operation, (engine,)),
        ensures
            match outcome {
                Ok(result) => {
                    &&& old(self).holder() is None
                    &&& exists|engine: &mut E|
                        {
                            &&& *engine == old(self).engine()
                            &&& *final(engine) == final(self).engine()
                            &&& call_ensures(operation, (engine,), result)
                        }
                    &&& final(self).history() == old(self).history().push(
                        GuardEvent::Enter(call),
                    ).push(GuardEvent::Exit(call))
                },
                Err(unrun) => {
                    &&& old(self).holder() is Some
                    &&& unrun == operation
                    &&& final(self).engine() == old(self).engine()
                    &&& final(self).history() == old(self).history()
                },
            },
            final(self).holder() == old(self).holder(),
            serialized(final(self).history()),
    {
        if self.acquire(call) {
            let result = operation(&mut self.engine);
            self.release(call);
            Ok(result)
        } else {
            Err(operation)
        }
    }
}

/// Mutual exclusion. In a serialized history, a call that entered the
/// engine has left it before the next call enters: the stretches that two
/// calls spend inside the engine do not overlap.
pub proof fn lemma_mutual_exclusion(history: Seq<GuardEvent>, first: int, second: int)
    requires
        serialized(history),
        0 <= first < second < history.len(),
        history[first] is Enter,
        history[second] is Enter,
    ensures
        first + 1 < second,
        history[first + 1] == GuardEvent::Exit(history[first]->Enter_0),
{
    assert(history[first + 1] is Exit);
}

/// At most one call is inside the engine: whoever is inside at the end of a
/// serialized history is the call of its last entry, and every earlier
/// entry has been matched by its exit.
pub proof fn lemma_single_holder(history: Seq<GuardEvent>, entry: int)
    requires
        serialized(history),
        0 <= entry < history.len(),
        history[entry] is Enter,
    ensures
        entry + 1 < history.len() ==> history[entry + 1] == GuardEvent::Exit(
            history[entry]->Enter_0,
        ),
        entry + 1 == history.len() ==> inside(history) == Some(history[entry]->Enter_0),
{
    if entry + 1 < history.len() {
        assert(history[entry + 1] is Exit);
    }
}

} // verus!
