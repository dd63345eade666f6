//! The `add_members` command: an admin enters every member of the guild in
//! the ledger and gets a report of it, one line per member.
use crate::markdown::{bold, bold_safe};
use crate::responses::errors::{error_retriving_guild_members_message, guild_members_error_text};
use crate::text::{decimal, pad_right, pad_right_spec, u64_to_decimal};
use vstd::prelude::*;

verus! {

pub struct Command;

/// What entering one member gave: their display name, their Discord id, and
/// their reputation in the ledger (in decimal notation) or why they were not
/// entered.
pub struct MemberOutcome {
    pub display_name: String,
    pub user_id: u64,
    pub created: Result<String, String>,
}

/// The report line of one member.
pub open spec fn member_line(m: MemberOutcome) -> Seq<char> {
    pad_right_spec(m.display_name@, 15) + " | "@ + pad_right_spec(decimal(m.user_id as nat), 4)
        + " | "@ + match m.created {
        Ok(reputation) => reputation@ + "\n"@,
        Err(why) => bold("was not created because "@) + why@ + " \n"@,
    }
}

/// The report lines of the members, in order.
pub open spec fn member_lines(list: Seq<MemberOutcome>) -> Seq<char>
    decreases list.len(),
{
    if list.len() == 0 {
        Seq::empty()
    } else {
        member_lines(list.drop_last()) + member_line(list.last())
    }
}

/// The report, from the members of the guild and what entering each gave,
/// or from why the members could not be listed.
pub open spec fn report_text(members: Result<Vec<MemberOutcome>, String>) -> Seq<char> {
    match members {
        Ok(list) => member_lines(list@),
        Err(why) => guild_members_error_text(why@),
    }
}

fn line(m: &MemberOutcome) -> (r: String)
    ensures
        r@ == member_line(*m),
{
    let mut r = pad_right(m.display_name.as_str(), 15);
    r.append(" | ");
    r.append(pad_right(u64_to_decimal(m.user_id).as_str(), 4).as_str());
    r.append(" | ");
    match &m.created {
        Ok(reputation) => {
            r.append(reputation.as_str());
            r.append("\n");
        },
        Err(why) => {
            r.append(bold_safe("was not created because ").as_str());
            r.append(why.as_str());
            r.append(" \n");
        },
    }
    r
}

impl Command {
    /// The report of entering the guild's members in the ledger.
    pub fn admin_logic_response(members: &Result<Vec<MemberOutcome>, String>) -> (r: String)
        ensures
            r@ == report_text(*members),
    {
        match members {
            Ok(list) => {
                let mut r = String::new();
                let mut i: usize = 0;
                while i < list.len()
                    invariant
                        i <= list@.len(),
                        r@ == member_lines(list@.take(i as int)),
                    decreases list@.len() - i,
                {
                    assert(list@.take(i + 1).drop_last() =~= list@.take(i as int));
                    assert(list@.take(i + 1).last() == list@[i as int]);
                    r.append(line(&list[i]).as_str());
                    i = i + 1;
                }
                assert(list@.take(list@.len() as int) =~= list@);
                r
            },
            Err(why) => error_retriving_guild_members_message(why.clone()),
        }
    }
}

/// Law: the report has one line per member, in order, whatever the earlier
/// members' outcomes: one member more at the end of the list adds exactly
/// that member's line at the end of the report. A member's line is their
/// display name in 15 columns, their id in 4, and then their reputation, or
/// in bold that they were not created and why.
pub proof fn lemma_report_one_line_per_member(
    shorter: Vec<MemberOutcome>,
    longer: Vec<MemberOutcome>,
    member: MemberOutcome,
)
    requires
        longer@ == shorter@.push(member),
    ensures
        report_text(Ok(longer)) == report_text(Ok(shorter)) + pad_right_spec(
            member.display_name@,
            15,
        ) + " | "@ + pad_right_spec(decimal(member.user_id as nat), 4) + " | "@
            + match member.created {
            Ok(reputation) => reputation@ + "\n"@,
            Err(why) => bold("was not created because "@) + why@ + " \n"@,
        },
        shorter@.len() == 0 ==> report_text(Ok(shorter)) == Seq::<char>::empty(),
{
    assert(longer@.drop_last() =~= shorter@);
    assert(longer@.last() == member);
    let l = report_text(Ok(shorter));
    assert(report_text(Ok(longer)) =~= l + member_line(member));
}

} // verus!
