use leave_notifier::command::{
    on_message, on_probe_result, parse_set_channel, probe_verdict, CommandError, CommandOutcome, MessageAction,
};
use leave_notifier::ids::{format_id, parse_id};
use leave_notifier::notify::{announcement, removal_notice, removal_target, NotifyError};
use leave_notifier::registry::{Registry, RegistryError};

const GUILD: u64 = 4242;

#[test]
fn later_set_wins() {
    let mut r = Registry::new();
    assert_eq!(r.set(GUILD, 111), Ok(()));
    assert_eq!(r.set(GUILD, 222), Ok(()));
    assert_eq!(r.get(GUILD), Ok(222));
}

#[test]
fn set_keeps_other_guilds() {
    let mut r = Registry::new();
    r.set(1, 10).unwrap();
    r.set(2, 20).unwrap();
    r.set(1, 11).unwrap();
    assert_eq!(r.get(1), Ok(11));
    assert_eq!(r.get(2), Ok(20));
}

#[test]
fn get_unbound_is_not_found() {
    let mut r = Registry::new();
    assert_eq!(r.get(GUILD), Err(RegistryError::NotFound));
    r.set(GUILD + 1, 5).unwrap();
    assert_eq!(r.get(GUILD), Err(RegistryError::NotFound));
}

#[test]
fn set_zero_channel_is_refused() {
    let mut r = Registry::new();
    r.set(GUILD, 9).unwrap();
    assert_eq!(r.set(GUILD, 0), Err(RegistryError::InvalidChannel));
    assert_eq!(r.get(GUILD), Ok(9));
}

#[test]
fn registry_holds_largest_ids() {
    let mut r = Registry::new();
    r.set(u64::MAX, u64::MAX).unwrap();
    assert_eq!(r.get(u64::MAX), Ok(u64::MAX));
}

#[test]
fn parse_zero_is_invalid() {
    assert_eq!(parse_set_channel("!abs notifchan 0"), Err(CommandError::InvalidChannel));
}

#[test]
fn parse_zero_without_prefix_is_not_accepted() {
    assert_eq!(parse_set_channel("notifchan 0"), Ok(None));
    assert_eq!(parse_set_channel("!abs x notifchan 0"), Err(CommandError::BadFormat));
    assert_eq!(parse_set_channel("!abs notifchan notifchan 0"), Err(CommandError::InvalidChannel));
}

#[test]
fn parse_non_numeric_same_error_as_zero() {
    let abc = parse_set_channel("!abs notifchan abc");
    assert_eq!(abc, Err(CommandError::InvalidChannel));
    assert_eq!(abc, parse_set_channel("!abs notifchan 0"));
}

#[test]
fn parse_argument_edge_cases() {
    assert_eq!(parse_set_channel("!abs notifchan "), Err(CommandError::InvalidChannel));
    assert_eq!(parse_set_channel("!abs notifchan -5"), Err(CommandError::InvalidChannel));
    assert_eq!(parse_set_channel("!abs notifchan 12 "), Err(CommandError::InvalidChannel));
    assert_eq!(
        parse_set_channel("!abs notifchan 18446744073709551616"),
        Err(CommandError::InvalidChannel)
    );
    assert_eq!(
        parse_set_channel("!abs notifchan 18446744073709551615"),
        Ok(Some(u64::MAX))
    );
    assert_eq!(parse_set_channel("!abs notifchan 0555"), Ok(Some(555)));
}

#[test]
fn parse_missing_keyword_is_bad_format() {
    assert_eq!(parse_set_channel("!abs "), Err(CommandError::BadFormat));
    assert_eq!(parse_set_channel("!abs notifchan"), Err(CommandError::BadFormat));
    assert_eq!(parse_set_channel("!abs help"), Err(CommandError::BadFormat));
}

#[test]
fn parse_prefix_is_case_sensitive() {
    assert_eq!(parse_set_channel("!ABS notifchan 5"), Ok(None));
    assert_eq!(parse_set_channel("!absnotifchan 5"), Ok(None));
    assert_eq!(parse_set_channel(""), Ok(None));
    assert_eq!(parse_set_channel("hello there"), Ok(None));
}

#[test]
fn parse_valid_command() {
    assert_eq!(parse_set_channel("!abs notifchan 555"), Ok(Some(555)));
}

#[test]
fn error_messages() {
    assert_eq!(CommandError::InvalidChannel.reply_text(), "channel id invalid");
    assert!(CommandError::BadFormat.reply_text().contains("notifchan <channelid>"));
}

#[test]
fn non_command_message_is_ignored() {
    assert_eq!(on_message("hello everyone"), MessageAction::Ignore);
    assert_eq!(on_message("notifchan 555"), MessageAction::Ignore);
    assert_eq!(on_message(""), MessageAction::Ignore);
}

#[test]
fn malformed_command_gets_usage_reply() {
    match on_message("!abs frobnicate") {
        MessageAction::Reply(text) => assert!(text.starts_with("bad command format")),
        other => panic!("unexpected action {:?}", other),
    }
}

#[test]
fn probe_failure_leaves_binding() {
    let mut r = Registry::new();
    r.set(GUILD, 77).unwrap();
    let out = on_probe_result(&mut r, Some(GUILD), 123, false);
    assert_eq!(
        out,
        CommandOutcome::Reply("I can't find or don't have access to that channel".to_string())
    );
    assert_eq!(r.get(GUILD), Ok(77));

    let mut empty = Registry::new();
    on_probe_result(&mut empty, Some(GUILD), 123, false);
    assert_eq!(empty.get(GUILD), Err(RegistryError::NotFound));
}

#[test]
fn probe_without_guild_binds_nothing() {
    let mut r = Registry::new();
    assert_eq!(on_probe_result(&mut r, None, 123, true), CommandOutcome::NoGuild);
    assert_eq!(r.get(GUILD), Err(RegistryError::NotFound));
}

#[test]
fn probe_of_channel_zero_binds_nothing() {
    let mut r = Registry::new();
    assert_eq!(
        on_probe_result(&mut r, Some(GUILD), 0, true),
        CommandOutcome::Reply("channel id invalid".to_string())
    );
    assert_eq!(r.get(GUILD), Err(RegistryError::NotFound));
}

#[test]
fn command_binds_channel_end_to_end() {
    let mut r = Registry::new();
    let (channel, text) = match on_message("!abs notifchan 555") {
        MessageAction::Probe { channel, text } => (channel, text),
        other => panic!("unexpected action {:?}", other),
    };
    assert_eq!(channel, 555);
    assert_eq!(text, "This is now the channel that will be notified when someone leaves.");
    let out = on_probe_result(&mut r, Some(GUILD), channel, true);
    assert_eq!(out, CommandOutcome::Committed { guild: GUILD, channel: 555 });
    assert_eq!(r.get(GUILD), Ok(555));
}

#[test]
fn removal_announced_in_bound_channel() {
    let mut r = Registry::new();
    r.set(GUILD, 555).unwrap();
    let bound = removal_target(&r, GUILD).unwrap();
    assert_eq!(bound, 555);
    let channels = vec![12, 555, 900];
    let notice = removal_notice(bound, Some(&channels), "Alice#1", 81).unwrap();
    assert_eq!(notice.channel, 555);
    assert!(notice.text.contains("Alice"));
    assert!(notice.text.contains("has left the server"));
    assert_eq!(notice.text, "Alice#1 (81) has left the server");
}

#[test]
fn removal_without_binding_sends_nothing() {
    let r = Registry::new();
    assert_eq!(removal_target(&r, GUILD), Err(NotifyError::NotBound));
}

#[test]
fn removal_with_stale_channel_is_dropped() {
    let channels = vec![12, 900];
    assert_eq!(
        removal_notice(555, Some(&channels), "Bob", 1),
        Err(NotifyError::ChannelGone)
    );
    let none: Vec<u64> = Vec::new();
    assert_eq!(removal_notice(555, Some(&none), "Bob", 1), Err(NotifyError::ChannelGone));
}

#[test]
fn removal_with_listing_failure_is_dropped() {
    assert_eq!(removal_notice(555, None, "Bob", 1), Err(NotifyError::ListFailed));
}

#[test]
fn zero_channel_command_replies_invalid_only() {
    let mut r = Registry::new();
    match on_message("!abs notifchan 0") {
        MessageAction::Reply(text) => assert!(text.contains("invalid")),
        other => panic!("unexpected action {:?}", other),
    }
    assert_eq!(r.get(GUILD), Err(RegistryError::NotFound));
    r.set(GUILD, 3).unwrap();
    assert_eq!(r.get(GUILD), Ok(3));
}

#[test]
fn announcement_text_exact() {
    assert_eq!(announcement("Alice#1", 0), "Alice#1 (0) has left the server");
    assert_eq!(
        announcement("", 18446744073709551615),
        " (18446744073709551615) has left the server"
    );
}

#[test]
fn id_text_round_trip() {
    for n in [0u64, 7, 10, 99, 100, 555, 1234567890123, u64::MAX] {
        let text = format_id(n);
        assert_eq!(text, n.to_string());
        assert_eq!(parse_id(&text), Some(n));
    }
}

#[test]
fn parse_id_rejects_non_digits() {
    assert_eq!(parse_id(""), None);
    assert_eq!(parse_id("abc"), None);
    assert_eq!(parse_id("+5"), None);
    assert_eq!(parse_id("1 2"), None);
    assert_eq!(parse_id("18446744073709551616"), None);
    assert_eq!(parse_id("99999999999999999999"), None);
    assert_eq!(parse_id("007"), Some(7));
}

#[test]
fn parse_plus_sign_is_accepted() {
    assert_eq!(parse_set_channel("!abs notifchan +5"), Ok(Some(5)));
    assert_eq!(
        parse_set_channel("!abs notifchan +18446744073709551615"),
        Ok(Some(u64::MAX))
    );
}

#[test]
fn parse_signed_or_zero_edge_cases() {
    assert_eq!(parse_set_channel("!abs notifchan +0"), Err(CommandError::InvalidChannel));
    assert_eq!(parse_set_channel("!abs notifchan 00"), Err(CommandError::InvalidChannel));
    assert_eq!(parse_set_channel("!abs notifchan +"), Err(CommandError::InvalidChannel));
    assert_eq!(parse_set_channel("!abs notifchan ++5"), Err(CommandError::InvalidChannel));
    assert_eq!(parse_set_channel("!abs notifchan + 5"), Err(CommandError::InvalidChannel));
    assert_eq!(parse_set_channel("!abs notifchan +-5"), Err(CommandError::InvalidChannel));
    assert_eq!(
        parse_set_channel("!abs notifchan +18446744073709551616"),
        Err(CommandError::InvalidChannel)
    );
}

#[test]
fn probe_verdict_cases() {
    assert_eq!(
        probe_verdict(Some(GUILD), 123, true),
        CommandOutcome::Committed { guild: GUILD, channel: 123 }
    );
    assert_eq!(
        probe_verdict(Some(GUILD), 123, false),
        CommandOutcome::Reply("I can't find or don't have access to that channel".to_string())
    );
    assert_eq!(probe_verdict(None, 123, true), CommandOutcome::NoGuild);
    assert_eq!(
        probe_verdict(Some(GUILD), 0, true),
        CommandOutcome::Reply("channel id invalid".to_string())
    );
}
