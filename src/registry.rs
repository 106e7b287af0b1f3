//! The authoritative mapping from guild to notification channel.
//!
//! At most one channel is bound per guild: a new binding replaces the old
//! one. Channel id `0` is never a valid channel and is never stored.
//! Access goes through `&self` / `&mut self`, so a caller that shares the
//! registry between tasks puts it behind a lock; every `set` is then applied
//! whole, and a reader sees either the binding before it or the one after.
use std::collections::HashMap;
use vstd::prelude::*;

verus! {

broadcast use vstd::std_specs::hash::group_hash_axioms;

/// Why a registry operation did not succeed.
#[derive(Debug, Clone, Copy, PartialEq, Eq, Structural)]
pub enum RegistryError {
    /// No channel is bound for the guild.
    NotFound,
    /// The channel id is `0`, which never names a channel.
    InvalidChannel,
}

/// What `get` answers for `guild` on the bindings `m`.
pub open spec fn lookup(m: Map<u64, u64>, guild: u64) -> Result<u64, RegistryError> {
    if m.contains_key(guild) {
        Ok(m[guild])
    } else {
        Err(RegistryError::NotFound)
    }
}

/// The bindings after `set(guild, channel)` on the bindings `m`.
pub open spec fn after_set(m: Map<u64, u64>, guild: u64, channel: u64) -> Map<u64, u64> {
    if channel == 0 {
        m
    } else {
        m.insert(guild, channel)
    }
}

/// Every bound channel is a real one.
pub open spec fn bindings_valid(m: Map<u64, u64>) -> bool {
    forall|g: u64| #[trigger] m.contains_key(g) ==> m[g] != 0
}

pub struct Registry {
    bindings: HashMap<u64, u64>,
}

impl View for Registry {
    type V = Map<u64, u64>;

    closed spec fn view(&self) -> Map<u64, u64> {
        self.bindings@
    }
}

impl Registry {
    #[verifier::type_invariant]
    spec fn wf(&self) -> bool {
        bindings_valid(self.bindings@)
    }

    /// A registry with no bindings.
    pub fn new() -> (r: Registry)
        ensures
            r@ == Map::<u64, u64>::empty(),
    {
        Registry { bindings: HashMap::new() }
    }

    /// The channel bound for `guild`, or `NotFound`.
    pub fn get(&self, guild: u64) -> (r: Result<u64, RegistryError>)
        ensures
            r == lookup(self@, guild),
            r matches Ok(c) ==> c != 0,
    {
        proof {
            use_type_invariant(self);
        }
        match self.bindings.get(&guild) {
            Some(c) => Ok(*c),
            None => Err(RegistryError::NotFound),
        }
    }

    /// Binds `channel` for `guild`, replacing any earlier binding. Channel
    /// `0` is refused with `InvalidChannel` and nothing changes.
    pub fn set(&mut self, guild: u64, channel: u64) -> (r: Result<(), RegistryError>)
        ensures
            final(self)@ == after_set(old(self)@, guild, channel),
            r == (if channel == 0 {
                Err::<(), RegistryError>(RegistryError::InvalidChannel)
            } else {
                Ok::<(), RegistryError>(())
            }),
    {
        proof {
            use_type_invariant(&*self);
        }
        if channel == 0 {
            return Err(RegistryError::InvalidChannel);
        }
        // `insert` may unwind, so it runs on a map moved out of the field;
        // the field is only ever assigned a whole, valid map.
        let mut bindings: HashMap<u64, u64> = HashMap::new();
        std::mem::swap(&mut self.bindings, &mut bindings);
        bindings.insert(guild, channel);
        self.bindings = bindings;
        Ok(())
    }
}

/// After two `set`s for one guild, in sequence, `get` answers the channel of
/// the later one.
pub proof fn lemma_last_set_wins(m: Map<u64, u64>, guild: u64, c1: u64, c2: u64)
    requires
        c2 != 0,
    ensures
        lookup(after_set(after_set(m, guild, c1), guild, c2), guild) == Ok::<u64, RegistryError>(c2),
{
}

/// Two `set`s for one guild, applied in either order, leave one of the two
/// channels bound, never any other value.
pub proof fn lemma_set_order_gives_one_of_two(m: Map<u64, u64>, guild: u64, c1: u64, c2: u64)
    requires
        c1 != 0,
        c2 != 0,
    ensures
        lookup(after_set(after_set(m, guild, c1), guild, c2), guild) is Ok,
        lookup(after_set(after_set(m, guild, c2), guild, c1), guild) is Ok,
        ({
            let a = lookup(after_set(after_set(m, guild, c1), guild, c2), guild)->Ok_0;
            let b = lookup(after_set(after_set(m, guild, c2), guild, c1), guild)->Ok_0;
            (a == c1 || a == c2) && (b == c1 || b == c2)
        }),
{
}

/// A guild that was never bound is reported as `NotFound`, not as a default
/// channel.
pub proof fn lemma_unbound_is_not_found(m: Map<u64, u64>, guild: u64)
    requires
        !m.contains_key(guild),
    ensures
        lookup(m, guild) == Err::<u64, RegistryError>(RegistryError::NotFound),
        lookup(Map::<u64, u64>::empty(), guild) == Err::<u64, RegistryError>(RegistryError::NotFound),
{
}

/// A `set` for one guild leaves every other guild's binding as it was.
pub proof fn lemma_set_keeps_other_guilds(m: Map<u64, u64>, guild: u64, channel: u64, other: u64)
    requires
        other != guild,
    ensures
        lookup(after_set(m, guild, channel), other) == lookup(m, other),
{
}

} // verus!
