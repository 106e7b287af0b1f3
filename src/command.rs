//! The configuration command: `!abs notifchan <channel_id>`.
//!
//! A message is taken through a small state machine. Text without the
//! command prefix is ignored. With the prefix but without the `notifchan`
//! keyword the author gets a usage reply. An argument that is not a non-zero
//! base-10 channel id (one leading `+` allowed) gets an "invalid" reply.
//! Otherwise the channel is probed by sending the confirmation into it, and
//! only a delivered probe commits the binding to the registry.
use vstd::prelude::*;

use crate::ids::{id_of, parse_id};
use crate::registry::{after_set, Registry};

verus! {

/// The text that starts every command, space included.
pub open spec fn command_prefix() -> Seq<char> {
    "!abs "@
}

/// The keyword of the set-notification-channel command, space included.
pub open spec fn set_channel_keyword() -> Seq<char> {
    "notifchan "@
}

pub open spec fn usage_text() -> Seq<char> {
    "bad command format, use: `!abs notifchan <channelid>`"@
}

pub open spec fn invalid_channel_text() -> Seq<char> {
    "channel id invalid"@
}

pub open spec fn inaccessible_text() -> Seq<char> {
    "I can't find or don't have access to that channel"@
}

/// What is sent into a channel to probe it; once delivered it also tells the
/// channel that it now receives the notices.
pub open spec fn confirmation_text() -> Seq<char> {
    "This is now the channel that will be notified when someone leaves."@
}

/// Why a command was refused.
#[derive(Debug, Clone, Copy, PartialEq, Eq, Structural)]
pub enum CommandError {
    /// The prefix is there but the keyword is not.
    BadFormat,
    /// The argument is not a non-zero base-10 channel id.
    InvalidChannel,
}

pub open spec fn error_text(e: CommandError) -> Seq<char> {
    match e {
        CommandError::BadFormat => usage_text(),
        CommandError::InvalidChannel => invalid_channel_text(),
    }
}

impl CommandError {
    /// The reply that tells the author what was wrong.
    pub fn reply_text(&self) -> (r: String)
        ensures
            r@ == error_text(*self),
    {
        match self {
            CommandError::BadFormat => String::from_str(
                "bad command format, use: `!abs notifchan <channelid>`",
            ),
            CommandError::InvalidChannel => String::from_str("channel id invalid"),
        }
    }
}

/// The digits of a channel argument: one leading `+` is dropped, as the
/// standard parse of an unsigned integer does.
pub open spec fn unsigned_digits(arg: Seq<char>) -> Seq<char> {
    if arg.len() > 0 && arg[0] == '+' {
        arg.skip(1)
    } else {
        arg
    }
}

/// The channel id that an argument denotes: base-10 digits, optionally after
/// one `+`, whose value fits in 64 bits.
pub open spec fn channel_arg_of(arg: Seq<char>) -> Option<u64> {
    id_of(unsigned_digits(arg))
}

/// How a message reads as a command: `Ok(None)` when it is no command at
/// all, `Ok(Some(channel))` for a well-formed one, and otherwise the error.
pub open spec fn parse_spec(t: Seq<char>) -> Result<Option<u64>, CommandError> {
    if !command_prefix().is_prefix_of(t) {
        Ok(None)
    } else {
        let rest = t.skip(command_prefix().len() as int);
        if !set_channel_keyword().is_prefix_of(rest) {
            Err(CommandError::BadFormat)
        } else {
            let arg = rest.skip(set_channel_keyword().len() as int);
            let id = channel_arg_of(arg);
            if id is Some && id->0 != 0 {
                Ok(Some(id->0))
            } else {
                Err(CommandError::InvalidChannel)
            }
        }
    }
}

/// The rest of `s` after `p`, when `s` starts with `p`.
fn strip_literal<'a>(s: &'a str, p: &str) -> (r: Option<&'a str>)
    ensures
        r is Some <==> p@.is_prefix_of(s@),
        r matches Some(rest) ==> rest@ == s@.skip(p@.len() as int),
{
    let n = s.unicode_len();
    let k = p.unicode_len();
    if k > n {
        return None;
    }
    let mut i: usize = 0;
    while i < k
        invariant
            k <= n,
            n == s@.len(),
            k == p@.len(),
            i <= k,
            forall|j: int| 0 <= j < i ==> s@[j] == p@[j],
        decreases k - i,
    {
        if s.get_char(i) != p.get_char(i) {
            return None;
        }
        i = i + 1;
    }
    assert(p@ =~= s@.subrange(0, p@.len() as int));
    let rest = s.substring_char(k, n);
    assert(rest@ =~= s@.skip(k as int));
    Some(rest)
}

/// Reads a message as a command.
pub fn parse_set_channel(content: &str) -> (r: Result<Option<u64>, CommandError>)
    ensures
        r == parse_spec(content@),
{
    let rest = match strip_literal(content, "!abs ") {
        Some(rest) => rest,
        None => {
            return Ok(None);
        },
    };
    let arg = match strip_literal(rest, "notifchan ") {
        Some(arg) => arg,
        None => {
            return Err(CommandError::BadFormat);
        },
    };
    proof {
        reveal_strlit("+");
    }
    let digits = match strip_literal(arg, "+") {
        Some(digits) => {
            assert("+"@[0] == arg@.subrange(0, 1)[0]);
            digits
        },
        None => {
            proof {
                if arg@.len() > 0 && arg@[0] == '+' {
                    assert("+"@ =~= arg@.subrange(0, 1));
                }
            }
            arg
        },
    };
    assert(digits@ == unsigned_digits(arg@));
    match parse_id(digits) {
        Some(c) => {
            if c == 0 {
                Err(CommandError::InvalidChannel)
            } else {
                Ok(Some(c))
            }
        },
        None => Err(CommandError::InvalidChannel),
    }
}

/// What to do with an incoming message.
#[derive(Debug, PartialEq, Eq)]
pub enum MessageAction {
    /// Not a command: no reply, no send, no change.
    Ignore,
    /// Reply to the author with this text; nothing else happens.
    Reply(String),
    /// Send `text` into `channel`; report whether it was delivered to
    /// `on_probe_result`.
    Probe { channel: u64, text: String },
}

/// The action that answers a message, given how it reads as a command.
pub open spec fn message_action_spec(t: Seq<char>, r: MessageAction) -> bool {
    match parse_spec(t) {
        Ok(None) => r is Ignore,
        Ok(Some(c)) => r matches MessageAction::Probe { channel, text } && channel == c
            && text@ == confirmation_text(),
        Err(e) => r matches MessageAction::Reply(text) && text@ == error_text(e),
    }
}

/// The first step for an incoming message.
pub fn on_message(content: &str) -> (r: MessageAction)
    ensures
        message_action_spec(content@, r),
        !command_prefix().is_prefix_of(content@) ==> r is Ignore,
        r matches MessageAction::Probe { channel, text } ==> channel != 0,
{
    match parse_set_channel(content) {
        Ok(None) => MessageAction::Ignore,
        Ok(Some(channel)) => MessageAction::Probe {
            channel,
            text: String::from_str(
                "This is now the channel that will be notified when someone leaves.",
            ),
        },
        Err(e) => MessageAction::Reply(e.reply_text()),
    }
}

/// How a command ends once its probe has been tried.
#[derive(Debug, PartialEq, Eq)]
pub enum CommandOutcome {
    /// The binding `guild -> channel` is now in the registry.
    Committed { guild: u64, channel: u64 },
    /// Reply to the author with this text; the registry is unchanged.
    Reply(String),
    /// The message came from outside any guild: there is nothing to bind.
    NoGuild,
}

/// What a tried probe leads to: a commit of `guild -> channel` if and only
/// if the probe was delivered, the message came from a guild and the channel
/// is a real one; otherwise the reply or the reason that nothing is bound.
pub open spec fn probe_outcome_spec(
    guild: Option<u64>,
    channel: u64,
    delivered: bool,
    r: CommandOutcome,
) -> bool {
    if !delivered {
        r matches CommandOutcome::Reply(text) && text@ == inaccessible_text()
    } else if guild is None {
        r == CommandOutcome::NoGuild
    } else if channel == 0 {
        r matches CommandOutcome::Reply(text) && text@ == invalid_channel_text()
    } else {
        r == (CommandOutcome::Committed { guild: guild->0, channel })
    }
}

/// The outcome of a command once its probe has been tried, decided without
/// touching a registry; `on_probe_result` applies it.
pub fn probe_verdict(guild: Option<u64>, channel: u64, delivered: bool) -> (r: CommandOutcome)
    ensures
        probe_outcome_spec(guild, channel, delivered, r),
{
    if !delivered {
        return CommandOutcome::Reply(
            String::from_str("I can't find or don't have access to that channel"),
        );
    }
    match guild {
        None => CommandOutcome::NoGuild,
        Some(guild) => {
            if channel == 0 {
                CommandOutcome::Reply(String::from_str("channel id invalid"))
            } else {
                CommandOutcome::Committed { guild, channel }
            }
        },
    }
}

/// The last step of a command: commits the binding if and only if the probe
/// into `channel` was delivered and the message came from a guild.
pub fn on_probe_result(
    registry: &mut Registry,
    guild: Option<u64>,
    channel: u64,
    delivered: bool,
) -> (r: CommandOutcome)
    ensures
        probe_outcome_spec(guild, channel, delivered, r),
        r matches CommandOutcome::Committed { guild: g, channel: c } ==> final(registry)@ == after_set(
            old(registry)@,
            g,
            c,
        ),
        !(r is Committed) ==> final(registry)@ == old(registry)@,
        !delivered ==> final(registry)@ == old(registry)@,
{
    let r = probe_verdict(guild, channel, delivered);
    if let CommandOutcome::Committed { guild, channel } = &r {
        let _ = registry.set(*guild, *channel);
    }
    r
}

/// A command whose argument is not a non-zero channel id (`abc`, empty, too
/// large for 64 bits, or `0` itself) is refused with the very error that
/// `notifchan 0` gets.
pub proof fn lemma_bad_argument_is_invalid(arg: Seq<char>)
    requires
        channel_arg_of(arg) is None || channel_arg_of(arg) == Some(0u64),
    ensures
        parse_spec(command_prefix() + set_channel_keyword() + arg) == Err::<
            Option<u64>,
            CommandError,
        >(CommandError::InvalidChannel),
        parse_spec(command_prefix() + set_channel_keyword() + arg) == parse_spec(
            command_prefix() + set_channel_keyword() + "0"@,
        ),
{
    reveal_strlit("!abs ");
    reveal_strlit("notifchan ");
    reveal_strlit("0");
    let zero: Seq<char> = "0"@;
    assert(zero.drop_last() =~= Seq::<char>::empty());
    assert(crate::ids::digits_value(Seq::<char>::empty()) == 0);
    assert(unsigned_digits(zero) == zero);
    assert(channel_arg_of(zero) == Some(0u64));
    assert forall|a: Seq<char>| #![auto]
        parse_spec(command_prefix() + set_channel_keyword() + a) == (if channel_arg_of(a) is Some
            && channel_arg_of(a)->0 != 0 {
            Ok::<Option<u64>, CommandError>(Some(channel_arg_of(a)->0))
        } else {
            Err::<Option<u64>, CommandError>(CommandError::InvalidChannel)
        }) by {
        let t = command_prefix() + set_channel_keyword() + a;
        assert(command_prefix() =~= t.subrange(0, 5));
        let rest = t.skip(5);
        assert(rest =~= set_channel_keyword() + a);
        assert(set_channel_keyword() =~= rest.subrange(0, 10));
        assert(rest.skip(10) =~= a);
    }
}

/// `notifchan 0` never yields a channel, whatever text stands before it:
/// the message is either no command at all or a refused one.
pub proof fn lemma_zero_channel_never_accepted(before: Seq<char>)
    ensures
        !(parse_spec(before + "notifchan 0"@) matches Ok(Some(_))),
{
    reveal_strlit("!abs ");
    reveal_strlit("notifchan ");
    reveal_strlit("notifchan 0");
    let t = before + "notifchan 0"@;
    if command_prefix().is_prefix_of(t) {
        let rest = t.skip(5);
        if set_channel_keyword().is_prefix_of(rest) {
            let arg = rest.skip(10);
            assert(arg =~= t.skip(15));
            let d = unsigned_digits(arg);
            assert(d =~= t.skip(t.len() - d.len()));
            if d.len() == 1 {
                assert(d[0] == t[t.len() - 1]);
                assert(d.drop_last() =~= Seq::<char>::empty());
                assert(crate::ids::digits_value(Seq::<char>::empty()) == 0);
                assert(crate::ids::digits_value(d) == 0);
            } else if d.len() >= 2 {
                assert(d[d.len() - 2] == t[t.len() - 2]);
                assert(!crate::ids::is_digit(d[d.len() - 2]));
            }
        }
    }
}

} // verus!
