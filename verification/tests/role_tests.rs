use rusty_bot::commands::command::admin_refusal;
use rusty_bot::utils::role::{identify_role_start, identify_role_step, RoleCheck, RoleStep, UserRole};

fn identify(has_admin_role: bool, has_bot_role: bool) -> (UserRole, usize) {
    let mut asked = identify_role_start();
    let mut questions = 0;
    loop {
        questions += 1;
        let answer = match asked {
            RoleCheck::AdminRole => has_admin_role,
            RoleCheck::BotRole => has_bot_role,
        };
        match identify_role_step(asked, answer) {
            RoleStep::Ask(next) => asked = next,
            RoleStep::Identified(role) => return (role, questions),
        }
    }
}

#[test]
fn admin_role_wins_after_one_question() {
    assert_eq!(identify(true, true), (UserRole::Admin, 1));
    assert_eq!(identify(true, false), (UserRole::Admin, 1));
}

#[test]
fn bot_and_user_need_two_questions() {
    assert_eq!(identify(false, true), (UserRole::Bot, 2));
    assert_eq!(identify(false, false), (UserRole::User, 2));
}

#[test]
fn first_question_is_admin_role() {
    assert_eq!(identify_role_start(), RoleCheck::AdminRole);
    assert_eq!(identify_role_step(RoleCheck::AdminRole, false), RoleStep::Ask(RoleCheck::BotRole));
}

#[test]
fn only_admins_pass_admin_commands() {
    assert_eq!(admin_refusal(&UserRole::Admin), None);
    let refusal = "Only bot overseers allowed to use this command\n**This action will be noted**\n";
    assert_eq!(admin_refusal(&UserRole::User).as_deref(), Some(refusal));
    assert_eq!(admin_refusal(&UserRole::Bot).as_deref(), Some(refusal));
}
