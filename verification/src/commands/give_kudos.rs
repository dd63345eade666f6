//! The `give_kudos` command: one member thanks another, which raises the
//! receiver's reputation by one.
//!
//! A member cannot thank themselves and can thank once per (UTC) day. The
//! caller reads the options and the clock, asks the ledger for the sender's
//! latest kudos, and, when the decision here is to give, records the kudos.
use crate::commands::command::{
    command_without_options,
    copy_user,
    plain_option,
    CommandOption,
    CommandSpec,
    OptionKind,
    OptionValue,
    UserInfo,
};
use crate::responses::errors::{
    cannot_increase_your_own_reputation_message,
    general_error_text,
    general_unknown_error_message,
    only_one_kudos_error_message,
    only_one_kudos_text,
    own_reputation_text,
};
use crate::responses::general::{kudos_given_text, succesfully_given_kudos_message};
use crate::utils::calendar::{
    date_of,
    lemma_same_date_same_day,
    lemma_same_day_same_date,
    utc_date,
    utc_date_of_nanos,
    utc_day,
};
use vstd::arithmetic::div_mod::lemma_div_is_ordered;
use vstd::prelude::*;

verus! {

pub struct Command;

/// Whether a kudos is given, or the reply that refuses it.
pub enum KudosDecision {
    Refuse(String),
    Give,
}

/// Whether the options can be read at all: a resolved first option, and,
/// when it is a user and a second option is there, a resolved second one.
pub open spec fn options_readable(options: Seq<CommandOption>) -> bool {
    &&& options.len() >= 1
    &&& options[0].resolved is Some
    &&& (options[0].resolved.unwrap() is User && options.len() >= 2) ==> options[1].resolved
        is Some
}

/// Whether the ledger's answer about the sender's latest kudos shows one
/// given on `day` (a UTC calendar date).
pub open spec fn kudos_given_on(latest: Result<Vec<i64>, String>, day: (i32, u32, u32)) -> bool {
    match latest {
        Ok(list) => given_on_seq(list@, day),
        Err(_) => false,
    }
}

/// Whether the first of `times` (the sender's latest kudos, when there is
/// one) falls on the UTC date `day`.
pub open spec fn given_on_seq(times: Seq<i64>, day: (i32, u32, u32)) -> bool {
    times.len() > 0 && utc_date_of_nanos(times[0] as int) == date_of(day)
}

/// Whether the decision is to give: the receiver is someone else and the
/// sender gave none today.
pub open spec fn gives(sender_id: u64, receiver_id: u64, given_today: bool) -> bool {
    sender_id != receiver_id && !given_today
}

/// How `give_kudos` is registered under `name`: a user to thank and a
/// message, both required.
pub open spec fn is_give_kudos_registration(r: CommandSpec, name: Seq<char>) -> bool {
    &&& r.name@ == name
    &&& r.description@ == "give kudos to the user"@
    &&& r.options@.len() == 2
    &&& r.options@[0].kind == OptionKind::User
    &&& r.options@[0].name@ == "to_user"@
    &&& r.options@[0].description@ == "recipient of your kudos"@
    &&& r.options@[0].required
    &&& r.options@[0].min_int is None && r.options@[0].max_int is None
    &&& r.options@[0].choices@.len() == 0
    &&& r.options@[1].kind == OptionKind::String
    &&& r.options@[1].name@ == "message"@
    &&& r.options@[1].description@ == "Usually why you are giving someone a kudos"@
    &&& r.options@[1].required
    &&& r.options@[1].min_int is None && r.options@[1].max_int is None
    &&& r.options@[1].choices@.len() == 0
}

/// The message a kudos carries when the sender gave none.
pub open spec fn default_message_text() -> Seq<char> {
    "No message was provided."@
}

/// The reply to a kudos the ledger recorded (`Ok` with the receiver's new
/// reputation in decimal notation) or failed to record.
pub open spec fn kudos_outcome_text(receiver: Seq<char>, outcome: Result<String, String>) -> Seq<
    char,
> {
    match outcome {
        Ok(reputation) => kudos_given_text(receiver, reputation@),
        Err(why) => general_error_text(why@),
    }
}

impl Command {
    /// Reads the receiver (first option) and the message (second option).
    ///
    /// The result is `None` when the first option is not a user, and also
    /// when it is one but no second option was sent; a second option that is
    /// not text gives the receiver with no message.
    pub fn unwrap_options(options: &Vec<CommandOption>) -> (r: Option<(UserInfo, Option<String>)>)
        requires
            options_readable(options@),
        ensures
            match options@[0].resolved.unwrap() {
                OptionValue::User(user) => if options@.len() >= 2 {
                    &&& r is Some
                    &&& r.unwrap().0.id == user.id
                    &&& r.unwrap().0.name@ == user.name@
                    &&& match options@[1].resolved.unwrap() {
                        OptionValue::String(message) => r.unwrap().1 is Some && r.unwrap().1.unwrap()@
                            == message@,
                        _ => r.unwrap().1 is None,
                    }
                } else {
                    r is None
                },
                _ => r is None,
            },
    {
        let mut result: Option<(UserInfo, Option<String>)> = None;
        let option_user = options[0].resolved.as_ref().unwrap();
        if let OptionValue::User(user) = option_user {
            let owned = copy_user(user);
            if options.len() >= 2 {
                let option_message = options[1].resolved.as_ref().unwrap();
                if let OptionValue::String(message) = option_message {
                    result = Some((owned, Some(message.clone())));
                } else {
                    result = Some((owned, None));
                }
            }
        }
        result
    }

    /// The message a kudos carries: the sender's, or a note that there was
    /// none.
    pub fn message_or_default(message: Option<String>) -> (r: String)
        ensures
            match message {
                Some(m) => r@ == m@,
                None => r@ == default_message_text(),
            },
    {
        match message {
            Some(m) => m,
            None => String::from_str("No message was provided."),
        }
    }

    /// Whether the sender already gave a kudos on the UTC date `today`, the
    /// date the clock reads when the command runs, from the ledger's answer
    /// about their latest kudos (their times in nanoseconds since 1970,
    /// newest first). A failed lookup counts as none.
    pub fn has_given_kudos_today(latest: &Result<Vec<i64>, String>, today: (i32, u32, u32)) -> (r:
        bool)
        ensures
            r == kudos_given_on(*latest, today),
    {
        match latest {
            Ok(list) => {
                if list.len() == 0 {
                    return false;
                }
                let day = utc_date(list[0]);
                day.0 == today.0 && day.1 == today.1 && day.2 == today.2
            },
            Err(_) => false,
        }
    }

    /// Whether `sender` may thank `receiver` now: never themselves, and not
    /// twice on one day; the refusal carries its reply.
    pub fn decide(sender_id: u64, receiver_id: u64, given_today: bool) -> (r: KudosDecision)
        ensures
            sender_id == receiver_id ==> (r matches KudosDecision::Refuse(m) && m@
                == own_reputation_text()),
            sender_id != receiver_id && given_today ==> (r matches KudosDecision::Refuse(m) && m@
                == only_one_kudos_text()),
            r is Give <==> gives(sender_id, receiver_id, given_today),
    {
        if sender_id == receiver_id {
            KudosDecision::Refuse(cannot_increase_your_own_reputation_message())
        } else if given_today {
            KudosDecision::Refuse(only_one_kudos_error_message())
        } else {
            KudosDecision::Give
        }
    }

    /// The reply to a kudos given to `receiver_name`: the ledger recorded it
    /// and answered the receiver's new reputation, or it failed.
    pub fn give_kudos_response(receiver_name: &String, outcome: &Result<String, String>) -> (r:
        String)
        ensures
            r@ == kudos_outcome_text(receiver_name@, *outcome),
    {
        match outcome {
            Ok(reputation) => succesfully_given_kudos_message(receiver_name, reputation),
            Err(why) => general_unknown_error_message(why.clone()),
        }
    }

    /// How the command is registered under `name`: a user to thank and a
    /// message, both required.
    pub fn register(name: &str) -> (r: CommandSpec)
        ensures
            is_give_kudos_registration(r, name@),
    {
        let mut spec = command_without_options(name, "give kudos to the user");
        spec.options.push(plain_option(OptionKind::User, "to_user", "recipient of your kudos", true));
        spec.options.push(
            plain_option(
                OptionKind::String,
                "message",
                "Usually why you are giving someone a kudos",
                true,
            ),
        );
        spec
    }

    /// The reply to a call whose options could not be read.
    pub fn invalid_arguments_response() -> (r: String)
        ensures
            r@ == general_error_text("invalid arguments, buddy"@),
    {
        general_unknown_error_message(String::from_str("invalid arguments, buddy"))
    }
}

/// Law: a member gives at most one kudos per UTC day and none to
/// themselves. When the ledger's answer shows a kudos of the sender on the
/// day `today`, or the receiver is the sender, the decision taken from that
/// answer is not to give.
pub proof fn lemma_one_kudos_per_day(
    latest: Result<Vec<i64>, String>,
    today: (i32, u32, u32),
    sender_id: u64,
    receiver_id: u64,
)
    requires
        kudos_given_on(latest, today) || sender_id == receiver_id,
    ensures
        !gives(sender_id, receiver_id, kudos_given_on(latest, today)),
{
}

/// A kudos as the ledger keeps it: who gave it and when (nanoseconds since
/// 1970-01-01 00:00:00 UTC).
pub struct KudosRow {
    pub from: u64,
    pub time: i64,
}

/// One `give_kudos` call with readable options: sender and receiver, the
/// instant the clock was read (nanoseconds since 1970-01-01 00:00:00 UTC),
/// the date it gave `has_given_kudos_today`, and the time the kudos gets
/// when it is recorded.
pub struct KudosCall {
    pub sender: u64,
    pub receiver: u64,
    pub clock: i64,
    pub today: (i32, u32, u32),
    pub time: i64,
}

/// The time of the latest kudos `sender` gave in `ledger`, if any.
pub open spec fn latest_time(ledger: Seq<KudosRow>, sender: u64) -> Option<i64>
    decreases ledger.len(),
{
    if ledger.len() == 0 {
        None
    } else {
        let earlier = latest_time(ledger.drop_last(), sender);
        let row = ledger.last();
        if row.from == sender {
            match earlier {
                Some(t) => Some(if t < row.time {
                    row.time
                } else {
                    t
                }),
                None => Some(row.time),
            }
        } else {
            earlier
        }
    }
}

/// What the ledger answers when asked for the sender's kudos, newest first,
/// at most one.
pub open spec fn latest_answer(ledger: Seq<KudosRow>, sender: u64) -> Seq<i64> {
    match latest_time(ledger, sender) {
        Some(t) => seq![t],
        None => Seq::empty(),
    }
}

/// Whether the call gives a kudos, deciding as `decide` does from what
/// `has_given_kudos_today` makes of the ledger's answer.
pub open spec fn call_gives(ledger: Seq<KudosRow>, call: KudosCall) -> bool {
    gives(call.sender, call.receiver, given_on_seq(latest_answer(ledger, call.sender), call.today))
}

/// The ledger after a sequence of calls, starting empty: each call that
/// gives records one kudos from its sender at its time.
pub open spec fn ledger_after(calls: Seq<KudosCall>) -> Seq<KudosRow>
    decreases calls.len(),
{
    if calls.len() == 0 {
        Seq::empty()
    } else {
        let before = ledger_after(calls.drop_last());
        let call = calls.last();
        if call_gives(before, call) {
            before.push(KudosRow { from: call.sender, time: call.time })
        } else {
            before
        }
    }
}

proof fn lemma_latest_time_bounds(ledger: Seq<KudosRow>, sender: u64, bound: int)
    requires
        forall|k: int| 0 <= k < ledger.len() ==> (#[trigger] ledger[k]).time <= bound,
    ensures
        forall|k: int|
            0 <= k < ledger.len() && (#[trigger] ledger[k]).from == sender ==> latest_time(
                ledger,
                sender,
            ) is Some && ledger[k].time <= latest_time(ledger, sender).unwrap(),
        latest_time(ledger, sender) matches Some(t) ==> t <= bound,
    decreases ledger.len(),
{
    if ledger.len() > 0 {
        let rest = ledger.drop_last();
        assert forall|k: int| 0 <= k < rest.len() implies (#[trigger] rest[k]).time <= bound by {
            assert(rest[k] == ledger[k]);
        }
        lemma_latest_time_bounds(rest, sender, bound);
        assert forall|k: int|
            0 <= k < ledger.len() && (#[trigger] ledger[k]).from == sender implies latest_time(
            ledger,
            sender,
        ) is Some && ledger[k].time <= latest_time(ledger, sender).unwrap() by {
            if k < ledger.len() - 1 {
                assert(rest[k] == ledger[k]);
            }
        }
        assert(ledger.last() == ledger[ledger.len() - 1]);
    }
}

proof fn lemma_ledger_times_bounded(calls: Seq<KudosCall>, bound: int)
    requires
        forall|i: int| 0 <= i < calls.len() ==> (#[trigger] calls[i]).time <= bound,
    ensures
        forall|k: int|
            0 <= k < ledger_after(calls).len() ==> (#[trigger] ledger_after(calls)[k]).time <= bound,
    decreases calls.len(),
{
    if calls.len() > 0 {
        let prefix = calls.drop_last();
        assert forall|i: int| 0 <= i < prefix.len() implies (#[trigger] prefix[i]).time <= bound by {
            assert(prefix[i] == calls[i]);
        }
        lemma_ledger_times_bounded(prefix, bound);
        assert(calls.last() == calls[calls.len() - 1]);
        let before = ledger_after(prefix);
        if call_gives(before, calls.last()) {
            let after = ledger_after(calls);
            assert forall|k: int| 0 <= k < after.len() implies (#[trigger] after[k]).time
                <= bound by {
                if k < before.len() {
                    assert(after[k] == before[k]);
                }
            }
        }
    }
}

/// Law: one kudos per sender per UTC day. Run `give_kudos` calls one after
/// the other on an empty ledger: each reads the clock no earlier than the
/// times of the kudos recorded before it, takes `today` from that reading,
/// and records its kudos (if it gives one) no earlier than the reading. Then
/// no two kudos in the ledger come from one sender and fall in one UTC day,
/// nor on one UTC date, also where a check just before midnight records its
/// kudos just after it.
pub proof fn lemma_one_kudos_per_sender_per_day(calls: Seq<KudosCall>)
    requires
        forall|i: int, j: int|
            0 <= i < j < calls.len() ==> (#[trigger] calls[i]).time <= (#[trigger] calls[j]).clock,
        forall|i: int| 0 <= i < calls.len() ==> (#[trigger] calls[i]).clock <= calls[i].time,
        forall|i: int|
            0 <= i < calls.len() ==> date_of((#[trigger] calls[i]).today) == utc_date_of_nanos(
                calls[i].clock as int,
            ),
    ensures
        forall|i: int, j: int|
            0 <= i < j < ledger_after(calls).len() && (#[trigger] ledger_after(calls)[i]).from
                == (#[trigger] ledger_after(calls)[j]).from ==> utc_day(
                ledger_after(calls)[i].time as int,
            ) != utc_day(ledger_after(calls)[j].time as int),
        forall|i: int, j: int|
            0 <= i < j < ledger_after(calls).len() && (#[trigger] ledger_after(calls)[i]).from
                == (#[trigger] ledger_after(calls)[j]).from ==> utc_date_of_nanos(
                ledger_after(calls)[i].time as int,
            ) != utc_date_of_nanos(ledger_after(calls)[j].time as int),
    decreases calls.len(),
{
    lemma_one_kudos_per_sender_per_day_in_days(calls);
    let ledger = ledger_after(calls);
    assert forall|i: int, j: int|
        0 <= i < j < ledger.len() && (#[trigger] ledger[i]).from == (#[trigger] ledger[j]).from
        implies utc_date_of_nanos(ledger[i].time as int) != utc_date_of_nanos(
        ledger[j].time as int,
    ) by {
        if utc_date_of_nanos(ledger[i].time as int) == utc_date_of_nanos(ledger[j].time as int) {
            lemma_same_date_same_day(ledger[i].time as int, ledger[j].time as int);
        }
    }
}

proof fn lemma_one_kudos_per_sender_per_day_in_days(calls: Seq<KudosCall>)
    requires
        forall|i: int, j: int|
            0 <= i < j < calls.len() ==> (#[trigger] calls[i]).time <= (#[trigger] calls[j]).clock,
        forall|i: int| 0 <= i < calls.len() ==> (#[trigger] calls[i]).clock <= calls[i].time,
        forall|i: int|
            0 <= i < calls.len() ==> date_of((#[trigger] calls[i]).today) == utc_date_of_nanos(
                calls[i].clock as int,
            ),
    ensures
        forall|i: int, j: int|
            0 <= i < j < ledger_after(calls).len() && (#[trigger] ledger_after(calls)[i]).from
                == (#[trigger] ledger_after(calls)[j]).from ==> utc_day(
                ledger_after(calls)[i].time as int,
            ) != utc_day(ledger_after(calls)[j].time as int),
    decreases calls.len(),
{
    if calls.len() > 0 {
        let prefix = calls.drop_last();
        let call = calls.last();
        assert(call == calls[calls.len() - 1]);
        assert forall|i: int, j: int|
            0 <= i < j < prefix.len() implies (#[trigger] prefix[i]).time <= (
            #[trigger] prefix[j]).clock by {
            assert(prefix[i] == calls[i]);
            assert(prefix[j] == calls[j]);
        }
        assert forall|i: int| 0 <= i < prefix.len() implies (#[trigger] prefix[i]).clock
            <= prefix[i].time by {
            assert(prefix[i] == calls[i]);
        }
        assert forall|i: int| 0 <= i < prefix.len() implies date_of((#[trigger] prefix[i]).today)
            == utc_date_of_nanos(prefix[i].clock as int) by {
            assert(prefix[i] == calls[i]);
        }
        lemma_one_kudos_per_sender_per_day_in_days(prefix);
        let before = ledger_after(prefix);
        if call_gives(before, call) {
            let after = ledger_after(calls);
            assert forall|i: int| 0 <= i < prefix.len() implies (#[trigger] prefix[i]).time
                <= call.clock by {
                assert(prefix[i] == calls[i]);
            }
            lemma_ledger_times_bounded(prefix, call.clock as int);
            lemma_latest_time_bounds(before, call.sender, call.clock as int);
            assert forall|i: int, j: int|
                0 <= i < j < after.len() && (#[trigger] after[i]).from == (#[trigger] after[j]).from
                implies utc_day(after[i].time as int) != utc_day(after[j].time as int) by {
                assert(after[i] == before[i]);
                if j < before.len() {
                    assert(after[j] == before[j]);
                } else {
                    let m = latest_time(before, call.sender).unwrap();
                    assert(before[i].from == call.sender);
                    assert(before[i].time <= m);
                    assert(m <= call.clock);
                    assert(latest_answer(before, call.sender) == seq![m]);
                    assert(utc_date_of_nanos(m as int) != utc_date_of_nanos(call.clock as int));
                    assert(utc_day(m as int) != utc_day(call.clock as int));
                    lemma_div_is_ordered(m as int, call.clock as int, 86_400_000_000_000);
                    lemma_div_is_ordered(call.clock as int, call.time as int, 86_400_000_000_000);
                    lemma_div_is_ordered(before[i].time as int, m as int, 86_400_000_000_000);
                }
            }
        }
    }
}

/// Law: the check compares the whole UTC calendar date. The answer is
/// "given today" exactly when the lookup succeeded, found a kudos, and the
/// year, month and day of that kudos in UTC are those of `today`.
pub proof fn lemma_given_today_compares_whole_date(
    latest: Result<Vec<i64>, String>,
    today: (i32, u32, u32),
)
    ensures
        latest is Err ==> !kudos_given_on(latest, today),
        forall|list: Vec<i64>|
            latest == Ok::<Vec<i64>, String>(list) ==> (kudos_given_on(latest, today) <==> (
            list@.len() > 0 && utc_date_of_nanos(list@[0] as int).0 == today.0 as int
                && utc_date_of_nanos(list@[0] as int).1 == today.1 as int && utc_date_of_nanos(
                list@[0] as int,
            ).2 == today.2 as int)),
{
}

/// Law: when `today` is the date of the clock reading `clock`, the sender
/// has given a kudos today exactly when their latest kudos lies in the same
/// UTC day (the same 86 400-second span since 1970) as the reading.
pub proof fn lemma_given_today_is_same_utc_day(
    list: Vec<i64>,
    today: (i32, u32, u32),
    clock: i64,
)
    requires
        date_of(today) == utc_date_of_nanos(clock as int),
        list@.len() > 0,
    ensures
        kudos_given_on(Ok(list), today) <==> utc_day(list@[0] as int) == utc_day(clock as int),
{
    if utc_day(list@[0] as int) == utc_day(clock as int) {
        lemma_same_day_same_date(list@[0] as int, clock as int);
    }
    if kudos_given_on(Ok(list), today) {
        lemma_same_date_same_day(list@[0] as int, clock as int);
    }
}

} // verus!
