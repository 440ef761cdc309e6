//! The world a call of the ledger runs in: the durable state, the current
//! tick, the principals that authorized the call and the notifications that
//! the call has produced so far.

use vstd::prelude::*;
use crate::storage::{Storage, StorageView};
use crate::types::{Address, BrazaError, Event};

verus! {

/// Everything an operation reads or writes, passed by reference into it.
pub struct Env {
    /// The durable state of the ledger.
    pub storage: Storage,
    /// The current tick; a host sets it once before each call.
    pub ledger_sequence: u32,
    /// The principals whose authorization accompanies the current call.
    pub authorized: Vec<Address>,
    /// The notifications produced so far, oldest first.
    pub events: Vec<Event>,
}

/// The mathematical model of an [`Env`].
pub struct EnvView {
    pub storage: StorageView,
    pub ledger_sequence: u32,
    pub authorized: Set<Address>,
    pub events: Seq<Event>,
}

impl View for Env {
    type V = EnvView;

    open spec fn view(&self) -> EnvView {
        EnvView {
            storage: self.storage@,
            ledger_sequence: self.ledger_sequence,
            authorized: self.authorized@.to_set(),
            events: self.events@,
        }
    }
}

impl EnvView {
    /// The same world with another durable state.
    pub open spec fn with_storage(self, storage: StorageView) -> EnvView {
        EnvView { storage, ..self }
    }

    /// The same world after one more notification.
    pub open spec fn emit(self, event: Event) -> EnvView {
        EnvView { events: self.events.push(event), ..self }
    }

    /// What [`require_auth`] answers for `who`.
    pub open spec fn auth_check(self, who: Address) -> Result<(), BrazaError> {
        if self.authorized.contains(who) {
            Ok(())
        } else {
            Err(BrazaError::Unauthorized)
        }
    }
}

impl Env {
    /// A fresh world: empty state, tick zero, nobody authorized, no
    /// notification.
    pub fn new() -> (env: Env)
        ensures
            env@.storage == StorageView::empty(),
            env@.ledger_sequence == 0,
            env@.authorized == Set::<Address>::empty(),
            env@.events == Seq::<Event>::empty(),
    {
        let env = Env {
            storage: Storage::new(),
            ledger_sequence: 0,
            authorized: Vec::new(),
            events: Vec::new(),
        };
        assert(env.authorized@.to_set() =~= Set::<Address>::empty());
        env
    }

    /// Moves the clock to `sequence`.
    pub fn set_sequence(&mut self, sequence: u32)
        ensures
            final(self)@ == (EnvView { ledger_sequence: sequence, ..old(self)@ }),
    {
        self.ledger_sequence = sequence;
    }

    /// Records that `who` has authorized the current call.
    pub fn authorize(&mut self, who: Address)
        ensures
            final(self)@ == (EnvView {
                authorized: old(self)@.authorized.insert(who),
                ..old(self)@
            }),
    {
        self.authorized.push(who);
        assert(self.authorized@.to_set() =~= old(self).authorized@.to_set().insert(who)) by {
            let before = old(self).authorized@;
            let after = self.authorized@;
            assert forall|a: Address| after.to_set().contains(a) <==> before.to_set().insert(
                who,
            ).contains(a) by {
                if after.contains(a) {
                    let i = choose|i: int| 0 <= i < after.len() && after[i] == a;
                    if i < before.len() {
                        assert(before[i] == a);
                    }
                }
                if before.contains(a) {
                    let i = choose|i: int| 0 <= i < before.len() && before[i] == a;
                    assert(after[i] == a);
                }
                if a == who {
                    assert(after[before.len() as int] == a);
                }
            }
        }
    }

    /// Forgets every authorization.
    pub fn clear_authorizations(&mut self)
        ensures
            final(self)@ == (EnvView { authorized: Set::<Address>::empty(), ..old(self)@ }),
    {
        self.authorized.clear();
        assert(self.authorized@.to_set() =~= Set::<Address>::empty());
    }

    /// Hands the pending notifications to the caller and empties the log.
    pub fn take_events(&mut self) -> (events: Vec<Event>)
        ensures
            events@ == old(self)@.events,
            final(self)@ == (EnvView { events: Seq::<Event>::empty(), ..old(self)@ }),
    {
        let mut out: Vec<Event> = Vec::new();
        std::mem::swap(&mut self.events, &mut out);
        out
    }
}

/// Whether `who` has authorized the current call.
pub fn is_authorized(env: &Env, who: Address) -> (b: bool)
    ensures
        b == env@.authorized.contains(who),
{
    let mut i: usize = 0;
    while i < env.authorized.len()
        invariant
            0 <= i <= env.authorized@.len(),
            forall|j: int| 0 <= j < i ==> env.authorized@[j] != who,
        decreases env.authorized@.len() - i,
    {
        if env.authorized[i] == who {
            assert(env.authorized@.contains(who));
            return true;
        }
        i += 1;
    }
    assert(!env.authorized@.contains(who));
    false
}

/// Succeeds exactly when `who` has authorized the current call.
pub fn require_auth(env: &Env, who: Address) -> (r: Result<(), BrazaError>)
    ensures
        r == env@.auth_check(who),
{
    if is_authorized(env, who) {
        Ok(())
    } else {
        Err(BrazaError::Unauthorized)
    }
}

} // verus!
