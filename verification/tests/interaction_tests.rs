use rusty_bot::interaction::{
    parse_command_name, split_content, unknown_command_message, CommandName,
    DISCORD_RESPONSE_LIMIT,
};

#[test]
fn command_names_dispatch() {
    for command in
        [CommandName::Me, CommandName::AddMembers, CommandName::GiveKudos, CommandName::KudosSent]
    {
        assert_eq!(parse_command_name(command.name()), Some(command));
    }
    assert_eq!(parse_command_name("give_kudos"), Some(CommandName::GiveKudos));
    assert_eq!(parse_command_name("ping"), None);
    assert_eq!(unknown_command_message(), "Unknown command");
}

#[test]
fn short_reply_is_one_message() {
    assert_eq!(split_content("hello"), Some(vec!["hello".to_string()]));
    assert_eq!(split_content(""), Some(vec!["".to_string()]));
    let exact = "x".repeat(DISCORD_RESPONSE_LIMIT);
    assert_eq!(split_content(&exact), Some(vec![exact.clone()]));
    let wide = "é".repeat(DISCORD_RESPONSE_LIMIT);
    assert_eq!(split_content(&wide), Some(vec![wide.clone()]));
}

#[test]
fn long_ascii_reply_is_cut_every_1996_characters() {
    let content: String = (0..4000).map(|i| char::from(b'a' + (i % 26) as u8)).collect();
    let pieces = split_content(&content).unwrap();
    assert_eq!(pieces.len(), 3);
    assert_eq!(pieces[0].len(), 1996);
    assert_eq!(pieces[1].len(), 1996);
    assert_eq!(pieces[2].len(), 8);
    assert_eq!(pieces.concat(), content);

    let one_more = "y".repeat(DISCORD_RESPONSE_LIMIT + 1);
    assert_eq!(split_content(&one_more), Some(vec!["y".repeat(1996), "y".to_string()]));
}

#[test]
fn cut_inside_a_character_is_refused() {
    let content = format!("a{}", "é".repeat(2000));
    assert_eq!(split_content(&content), None);
}

#[test]
fn cuts_are_byte_offsets() {
    // 2001 characters, 2002 bytes: the cuts fall at bytes 1996 and 2001,
    // so the last byte is not sent.
    let content = format!("é{}", "a".repeat(2000));
    let pieces = split_content(&content).unwrap();
    assert_eq!(pieces, vec![format!("é{}", "a".repeat(1994)), "a".repeat(5)]);
}

#[test]
fn registered_commands_in_order() {
    let specs = rusty_bot::interaction::registrations();
    let names: Vec<&str> = specs.iter().map(|spec| spec.name.as_str()).collect();
    assert_eq!(names, vec!["me", "add_members", "give_kudos", "kudos_sent"]);
    assert_eq!(specs[0].description, "A me command");
    assert_eq!(specs[1].description, "A add_members command");
    assert_eq!(specs[2].description, "give kudos to the user");
    assert_eq!(specs[3].description, "get received kudos");
    for spec in &specs {
        assert_eq!(parse_command_name(&spec.name).map(|c| c.name()), Some(spec.name.as_str()));
    }
}
