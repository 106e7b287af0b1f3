//! The member-removal notice: find the guild's bound channel, check that the
//! guild still has it, and compose the announcement.
use vstd::prelude::*;

use crate::ids::{decimal_of, format_id};
use crate::registry::{lookup, Registry};

verus! {

/// Why no notice is sent for a member-removal event.
#[derive(Debug, Clone, Copy, PartialEq, Eq, Structural)]
pub enum NotifyError {
    /// The guild has no bound channel.
    NotBound,
    /// The guild's channels could not be listed.
    ListFailed,
    /// The bound channel is no longer among the guild's channels.
    ChannelGone,
}

/// `{name} ({user id}) has left the server`.
pub open spec fn announcement_text(name: Seq<char>, user_id: u64) -> Seq<char> {
    name + " ("@ + decimal_of(user_id as nat) + ") has left the server"@
}

/// A message to send: `text` into `channel`.
#[derive(Debug, PartialEq, Eq)]
pub struct Notice {
    pub channel: u64,
    pub text: String,
}

/// The first step for a member leaving `guild`: the channel to announce it
/// in, or `NotBound`, in which case nothing is sent.
pub fn removal_target(registry: &Registry, guild: u64) -> (r: Result<u64, NotifyError>)
    ensures
        r == (match lookup(registry@, guild) {
            Ok(c) => Ok::<u64, NotifyError>(c),
            Err(_) => Err::<u64, NotifyError>(NotifyError::NotBound),
        }),
{
    match registry.get(guild) {
        Ok(c) => Ok(c),
        Err(_) => Err(NotifyError::NotBound),
    }
}

/// The announcement that a member called `name`, with id `user_id`, has left.
pub fn announcement(name: &str, user_id: u64) -> (r: String)
    ensures
        r@ == announcement_text(name@, user_id),
{
    let mut s = String::from_str(name);
    s.append(" (");
    let id = format_id(user_id);
    s.append(id.as_str());
    s.append(") has left the server");
    s
}

/// The second step: given the guild's current channels (`None` when they
/// could not be listed), the notice to send into the bound channel.
pub fn removal_notice(
    bound: u64,
    guild_channels: Option<&Vec<u64>>,
    name: &str,
    user_id: u64,
) -> (r: Result<Notice, NotifyError>)
    ensures
        guild_channels is None ==> r == Err::<Notice, NotifyError>(NotifyError::ListFailed),
        guild_channels matches Some(cs) && !cs@.contains(bound) ==> r == Err::<Notice, NotifyError>(
            NotifyError::ChannelGone,
        ),
        guild_channels matches Some(cs) && cs@.contains(bound) ==> (r matches Ok(n) && n.channel
            == bound && n.text@ == announcement_text(name@, user_id)),
{
    let cs = match guild_channels {
        Some(cs) => cs,
        None => {
            return Err(NotifyError::ListFailed);
        },
    };
    let mut i: usize = 0;
    while i < cs.len()
        invariant
            guild_channels == Some(cs),
            i <= cs@.len(),
            forall|j: int| 0 <= j < i ==> cs@[j] != bound,
        decreases cs@.len() - i,
    {
        if cs[i] == bound {
            assert(cs@[i as int] == bound);
            return Ok(Notice { channel: bound, text: announcement(name, user_id) });
        }
        i = i + 1;
    }
    assert(!cs@.contains(bound));
    Err(NotifyError::ChannelGone)
}

} // verus!
