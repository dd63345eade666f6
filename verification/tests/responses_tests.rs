use rusty_bot::responses::errors::{
    cannot_increase_your_own_reputation_message, error_retriving_guild_members_message,
    general_unknown_error_message, not_registered_message, only_admin_message,
    only_one_kudos_error_message, unknown_user_error_message, user_not_found_message,
};
use rusty_bot::responses::general::{
    me_command_response, succesfully_given_kudos_message, unknown_role_message,
    unknown_role_message_from_debug,
};

#[test]
fn only_admin_message_text() {
    assert_eq!(
        only_admin_message(),
        "Only bot overseers allowed to use this command\n**This action will be noted**\n"
    );
}

#[test]
fn not_registered_message_text() {
    assert_eq!(
        not_registered_message(&"alice".to_string()),
        "User **alice**\n is not registered, talk with admins"
    );
}

#[test]
fn user_not_found_message_text() {
    assert_eq!(
        user_not_found_message(&"bob".to_string(), "timeout".to_string()),
        "Error looking into db for user **bob**\n : timeout"
    );
}

#[test]
fn guild_members_error_is_italic_and_neutralised() {
    assert_eq!(
        error_retriving_guild_members_message("missing_access".to_string()),
        "Error retriving guild members: _missing access_"
    );
}

#[test]
fn general_error_is_bold_and_neutralised() {
    assert_eq!(
        general_unknown_error_message("a**b @everyone".to_string()),
        "Something went wrong with the following error: \n**a b @\u{200B}everyone**\n"
    );
    assert_eq!(
        general_unknown_error_message("join discord.gg/x".to_string()),
        "Something went wrong with the following error: \n**join discord\u{2024}gg/x**\n"
    );
}

#[test]
fn kudos_refusal_texts() {
    assert_eq!(
        only_one_kudos_error_message(),
        "Only one kudos per day \n**Try again in tomorrow**\n"
    );
    assert_eq!(
        cannot_increase_your_own_reputation_message(),
        "I see what you are trying to do here\n**This action will be noted!**\n"
    );
    assert_eq!(
        unknown_user_error_message(),
        "Failed to understand the receiver of kudos (unknown user)"
    );
}

#[test]
fn unknown_role_message_quotes_the_reason() {
    assert_eq!(
        unknown_role_message("no role".to_string()),
        "Sorry, I can't process what species are you? (Unknown Role) [\"no role\"]"
    );
    assert_eq!(
        unknown_role_message("say \"hi\"\n".to_string()),
        "Sorry, I can't process what species are you? (Unknown Role) [\"say \\\"hi\\\"\\n\"]"
    );
    assert_eq!(
        unknown_role_message_from_debug("x"),
        "Sorry, I can't process what species are you? (Unknown Role) [x]"
    );
}

#[test]
fn me_command_response_text() {
    assert_eq!(
        me_command_response(&"carol".to_string(), &"101".to_string()),
        "User **carol** has the following reputation of **101**"
    );
}

#[test]
fn kudos_given_message_text() {
    assert_eq!(
        succesfully_given_kudos_message(&"dave".to_string(), &"102".to_string()),
        "kudos has been given succesfully to **dave**\nresulting in **102** reputation"
    );
}
