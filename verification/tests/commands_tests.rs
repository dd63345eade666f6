use chrono::Datelike;
use rusty_bot::commands::add_members::{Command as AddMembers, MemberOutcome};
use rusty_bot::commands::command::{
    default_description, register, CommandOption, LedgerUser, OptionKind, OptionValue, UserInfo,
};
use rusty_bot::commands::give_kudos::{Command as GiveKudos, KudosDecision};
use rusty_bot::commands::join::Command as Join;
use rusty_bot::commands::kudos_sent::{Command as KudosSent, OptionChoice, SentKudos, SortDirection};
use rusty_bot::commands::me::Command as Me;
use rusty_bot::commands::ping::Command as Ping;
use rusty_bot::commands::version::Command as Version;

fn opt(value: OptionValue) -> CommandOption {
    CommandOption { resolved: Some(value) }
}

fn user(id: u64, name: &str) -> OptionValue {
    OptionValue::User(UserInfo { id, name: name.to_string() })
}

#[test]
fn default_description_and_registration() {
    assert_eq!(default_description("me"), "A me command");
    let spec = register("kudos_received");
    assert_eq!(spec.name, "kudos_received");
    assert_eq!(spec.description, "A kudos_received command");
    assert!(spec.options.is_empty());
}

#[test]
fn give_kudos_registration() {
    let spec = GiveKudos::register("give_kudos");
    assert_eq!(spec.name, "give_kudos");
    assert_eq!(spec.description, "give kudos to the user");
    assert_eq!(spec.options.len(), 2);
    assert_eq!(spec.options[0].kind, OptionKind::User);
    assert_eq!(spec.options[0].name, "to_user");
    assert!(spec.options[0].required);
    assert_eq!(spec.options[1].kind, OptionKind::String);
    assert_eq!(spec.options[1].name, "message");
}

#[test]
fn kudos_sent_registration_choices_read_back() {
    let spec = KudosSent::register("kudos_sent");
    assert_eq!(spec.description, "get received kudos");
    let order = &spec.options[0];
    assert_eq!(order.choices.len(), 2);
    for (shown, value) in &order.choices {
        assert_eq!(shown, value);
        assert_ne!(KudosSent::parse_choice_string(value), OptionChoice::Unknown);
    }
    assert_eq!(spec.options[1].kind, OptionKind::Integer);
    assert_eq!(spec.options[1].min_int, Some(1));
    assert_eq!(spec.options[1].max_int, Some(20));
}

#[test]
fn join_and_ping_registration() {
    let join = Join::register();
    assert_eq!((join.name.as_str(), join.description.as_str()), ("join", "join our ledger"));
    let ping = Ping::register();
    assert_eq!((ping.name.as_str(), ping.description.as_str()), ("ping", "A ping command"));
}

#[test]
fn parse_choice_string_words() {
    assert_eq!(KudosSent::parse_choice_string(&"last".to_string()), OptionChoice::Last);
    assert_eq!(KudosSent::parse_choice_string(&"first".to_string()), OptionChoice::First);
    assert_eq!(KudosSent::parse_choice_string(&"First".to_string()), OptionChoice::Unknown);
    assert_eq!(KudosSent::parse_choice_string(&"".to_string()), OptionChoice::Unknown);
}

#[test]
fn choice_labels_read_back() {
    for choice in [OptionChoice::First, OptionChoice::Last] {
        assert_eq!(KudosSent::parse_choice_string(&choice.label()), choice);
    }
    assert_eq!(OptionChoice::Unknown.label(), "last");
}

#[test]
fn kudos_sent_options() {
    let ok = vec![opt(OptionValue::String("first".to_string())), opt(OptionValue::Integer(5))];
    assert_eq!(KudosSent::unwrap_options(&ok), Some((OptionChoice::First, 5)));
    let unknown = vec![opt(OptionValue::String("middle".to_string())), opt(OptionValue::Integer(5))];
    assert_eq!(KudosSent::unwrap_options(&unknown), None);
    let not_integer = vec![CommandOption { resolved: None }, opt(OptionValue::String("5".to_string()))];
    assert_eq!(KudosSent::unwrap_options(&not_integer), None);
    let not_text = vec![opt(OptionValue::Integer(1)), opt(OptionValue::Integer(5))];
    assert_eq!(KudosSent::unwrap_options(&not_text), None);
}

#[test]
fn kudos_sent_direction() {
    assert_eq!(KudosSent::direction(OptionChoice::First), SortDirection::Ascending);
    assert_eq!(KudosSent::direction(OptionChoice::Last), SortDirection::Descending);
}

#[test]
fn kudos_sent_empty_list() {
    let reply = KudosSent::kudos_list_response(OptionChoice::Last, 3, &Ok(vec![]));
    assert_eq!(
        reply,
        "Here is yours 3 latest kudos:\nLooks like you don't like anyone.\n_Yuck, that's lonely_\n"
    );
}

#[test]
fn kudos_sent_table() {
    let list = vec![
        SentKudos {
            to: Some("erin".to_string()),
            message: "thanks".to_string(),
            timestamp: "2024-01-15 12:00:00 +00:00".to_string(),
        },
        SentKudos { to: None, message: "lost".to_string(), timestamp: "t".to_string() },
    ];
    let reply = KudosSent::kudos_list_response(OptionChoice::First, 2, &Ok(list));
    let expected = format!(
        "Here is yours 2 earliest kudos:\n| {:<30} | {:<30} | {:<30} |\n| {:<30} | {:<30} | {:<30} |\n",
        "to", "message", "timestamp", "erin", "thanks", "2024-01-15 12:00:00 +00:00"
    );
    assert_eq!(reply, expected);
}

#[test]
fn kudos_sent_errors() {
    assert_eq!(
        KudosSent::kudos_list_response(OptionChoice::First, 2, &Err("down".to_string())),
        "Got some db error for you: \n_down_\n"
    );
    assert_eq!(KudosSent::wrong_arguments_response(), "Wrong arguments, buddy.\n_Try again ?_\n");
}

#[test]
fn give_kudos_options() {
    let both = vec![opt(user(7, "frank")), opt(OptionValue::String("great".to_string()))];
    let (receiver, message) = GiveKudos::unwrap_options(&both).unwrap();
    assert_eq!((receiver.id, receiver.name.as_str()), (7, "frank"));
    assert_eq!(message.as_deref(), Some("great"));

    let no_text = vec![opt(user(7, "frank")), opt(OptionValue::Integer(3))];
    let (receiver, message) = GiveKudos::unwrap_options(&no_text).unwrap();
    assert_eq!(receiver.id, 7);
    assert_eq!(message, None);

    let only_user = vec![opt(user(7, "frank"))];
    assert!(GiveKudos::unwrap_options(&only_user).is_none());

    let not_user = vec![opt(OptionValue::Other)];
    assert!(GiveKudos::unwrap_options(&not_user).is_none());
}

#[test]
fn give_kudos_message_default() {
    assert_eq!(GiveKudos::message_or_default(None), "No message was provided.");
    assert_eq!(GiveKudos::message_or_default(Some("hey".to_string())), "hey");
}

#[test]
fn give_kudos_decisions() {
    match GiveKudos::decide(1, 1, false) {
        KudosDecision::Refuse(m) => assert_eq!(
            m,
            "I see what you are trying to do here\n**This action will be noted!**\n"
        ),
        KudosDecision::Give => panic!("a member thanked themselves"),
    }
    match GiveKudos::decide(1, 1, true) {
        KudosDecision::Refuse(m) => assert!(m.starts_with("I see what")),
        KudosDecision::Give => panic!("a member thanked themselves"),
    }
    match GiveKudos::decide(1, 2, true) {
        KudosDecision::Refuse(m) => {
            assert_eq!(m, "Only one kudos per day \n**Try again in tomorrow**\n")
        }
        KudosDecision::Give => panic!("two kudos on one day"),
    }
    assert!(matches!(GiveKudos::decide(1, 2, false), KudosDecision::Give));
}

#[test]
fn kudos_given_on_a_utc_day() {
    let noon: i64 = 1705320000000000000; // 2024-01-15 12:00:00 UTC
    let last_second: i64 = 1705363199000000000; // 2024-01-15 23:59:59 UTC
    let next_midnight: i64 = 1705363200000000000; // 2024-01-16 00:00:00 UTC
    let day = (2024, 1, 15);
    assert!(GiveKudos::has_given_kudos_today(&Ok(vec![noon]), day));
    assert!(GiveKudos::has_given_kudos_today(&Ok(vec![last_second]), day));
    assert!(!GiveKudos::has_given_kudos_today(&Ok(vec![next_midnight]), day));
    assert!(GiveKudos::has_given_kudos_today(&Ok(vec![next_midnight]), (2024, 1, 16)));
    assert!(!GiveKudos::has_given_kudos_today(&Ok(vec![]), day));
    assert!(!GiveKudos::has_given_kudos_today(&Err("down".to_string()), day));
    assert!(!GiveKudos::has_given_kudos_today(&Ok(vec![noon]), (2023, 1, 15)));
}

#[test]
fn give_kudos_outcome_replies() {
    assert_eq!(
        GiveKudos::give_kudos_response(&"gina".to_string(), &Ok("101".to_string())),
        "kudos has been given succesfully to **gina**\nresulting in **101** reputation"
    );
    assert_eq!(
        GiveKudos::give_kudos_response(&"gina".to_string(), &Err("conflict".to_string())),
        "Something went wrong with the following error: \n**conflict**\n"
    );
    assert_eq!(
        GiveKudos::invalid_arguments_response(),
        "Something went wrong with the following error: \n**invalid arguments, buddy**\n"
    );
}

#[test]
fn me_replies() {
    let name = "henry".to_string();
    let found = Ok(Some(LedgerUser { username: "henry".to_string(), reputation: "100".to_string() }));
    assert_eq!(Me::response(&name, &found), "User **henry** has the following reputation of **100**");
    assert_eq!(
        Me::response(&name, &Ok(None)),
        "User **henry**\n is not registered, talk with admins"
    );
    assert_eq!(
        Me::response(&name, &Err("db".to_string())),
        "Error looking into db for user **henry**\n : db"
    );
}

#[test]
fn join_replies() {
    let created = Ok(LedgerUser { username: "iris".to_string(), reputation: "100".to_string() });
    assert_eq!(
        Join::response(&created),
        "User **iris**has been **created **and has **100**"
    );
    assert_eq!(Join::response(&Err("taken".to_string())), "Error joining the ledger: **taken**");
}

#[test]
fn ping_and_version_replies() {
    assert_eq!(Ping::response(), "Hey, I'm alive!");
    assert_eq!(Version::response("0.1.0"), "My current version is 0.1.0");
}

#[test]
fn add_members_report() {
    let members = vec![
        MemberOutcome {
            display_name: "jack".to_string(),
            user_id: 42,
            created: Ok("0".to_string()),
        },
        MemberOutcome {
            display_name: "a_long_display_name".to_string(),
            user_id: 123456,
            created: Err("duplicate".to_string()),
        },
    ];
    let expected = format!(
        "{:<15} | {:<4} | 0\n{:<15} | {:<4} | **was not created because **duplicate \n",
        "jack", "42", "a_long_display_name", "123456"
    );
    assert_eq!(AddMembers::admin_logic_response(&Ok(members)), expected);
    assert_eq!(AddMembers::admin_logic_response(&Ok(vec![])), "");
    assert_eq!(
        AddMembers::admin_logic_response(&Err("forbidden".to_string())),
        "Error retriving guild members: _forbidden_"
    );
}

/// Runs `give_kudos` decisions one after another on a ledger kept as
/// (sender, time) rows, reading "today" on the date of each call's time.
#[test]
fn one_kudos_per_sender_per_day_across_calls() {
    const DAY: i64 = 86_400_000_000_000;
    let day0: i64 = 1705276800000000000; // 2024-01-15 00:00:00 UTC
    let calls: Vec<(u64, u64, i64)> = vec![
        (1, 2, day0 + 1),
        (1, 3, day0 + 5),                // same day: refused
        (2, 1, day0 + 6),                // other sender: given
        (1, 1, day0 + DAY + 1),          // to themselves: refused
        (1, 3, day0 + DAY - 1 + DAY),    // next day, last nanosecond: given
        (1, 2, day0 + 2 * DAY),          // the day after: given
        (1, 2, day0 + 2 * DAY + DAY / 2) // same day again: refused
    ];
    let mut ledger: Vec<(u64, i64)> = Vec::new();
    for (sender, receiver, time) in calls {
        let latest: Vec<i64> = ledger
            .iter()
            .filter(|(from, _)| *from == sender)
            .map(|(_, t)| *t)
            .max()
            .into_iter()
            .collect();
        let d = chrono::DateTime::from_timestamp_nanos(time);
        let today = (d.year(), d.month(), d.day());
        let given_today = GiveKudos::has_given_kudos_today(&Ok(latest), today);
        if let KudosDecision::Give = GiveKudos::decide(sender, receiver, given_today) {
            ledger.push((sender, time));
        }
    }
    assert_eq!(
        ledger,
        vec![(1, day0 + 1), (2, day0 + 6), (1, day0 + 2 * DAY - 1), (1, day0 + 2 * DAY)]
    );
    for (i, a) in ledger.iter().enumerate() {
        for b in &ledger[i + 1..] {
            assert!(a.0 != b.0 || a.1.div_euclid(DAY) != b.1.div_euclid(DAY));
        }
    }
}
