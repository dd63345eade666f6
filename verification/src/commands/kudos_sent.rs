//! The `kudos_sent` command: lists the first or the last kudos a member gave.
//!
//! The command reads an order (`first` or `last`) and an amount, the caller
//! asks the ledger for that many kudos in that order, and the reply is a
//! table of them.
use crate::commands::command::{
    command_without_options,
    plain_option,
    CommandOption,
    CommandSpec,
    OptionKind,
    OptionValue,
};
use crate::markdown::{italic_line, italic_line_safe};
use crate::text::{i64_to_decimal, pad_right, pad_right_spec, same_text, signed_decimal};
use vstd::prelude::*;

verus! {

pub struct Command;

/// The order a member asked for.
#[derive(PartialEq, Eq, Structural, Clone, Copy, Debug)]
pub enum OptionChoice {
    Last,
    First,
    Unknown,
}

/// The order in which the ledger is asked for kudos, by time.
#[derive(PartialEq, Eq, Structural, Clone, Copy, Debug)]
pub enum SortDirection {
    Ascending,
    Descending,
}

/// A kudos as the ledger returns it: the username of its receiver when the
/// ledger found them, its message and its time as the ledger writes it.
pub struct SentKudos {
    pub to: Option<String>,
    pub message: String,
    pub timestamp: String,
}

/// The order a word names.
pub open spec fn choice_of(word: Seq<char>) -> OptionChoice {
    if word == "last"@ {
        OptionChoice::Last
    } else if word == "first"@ {
        OptionChoice::First
    } else {
        OptionChoice::Unknown
    }
}

/// The word an order is written as: `first`, and `last` for any other.
pub open spec fn choice_label(choice: OptionChoice) -> Seq<char> {
    if choice == OptionChoice::First {
        "first"@
    } else {
        "last"@
    }
}

/// What the options of a call give: the order and the amount, when the
/// amount is an integer and the order a known word.
pub open spec fn options_of(options: Seq<CommandOption>) -> Option<(OptionChoice, i64)> {
    match options[1].resolved.unwrap() {
        OptionValue::Integer(amount) => match options[0].resolved.unwrap() {
            OptionValue::String(order) => if choice_of(order@) == OptionChoice::Unknown {
                None
            } else {
                Some((choice_of(order@), amount))
            },
            _ => None,
        },
        _ => None,
    }
}

/// Whether the options can be read at all: two of them, a resolved amount,
/// and a resolved order when the amount is an integer.
pub open spec fn options_readable(options: Seq<CommandOption>) -> bool {
    &&& options.len() >= 2
    &&& options[1].resolved is Some
    &&& options[1].resolved.unwrap() is Integer ==> options[0].resolved is Some
}

/// One row of the table, each column 30 characters wide at least.
pub open spec fn row_text(a: Seq<char>, b: Seq<char>, c: Seq<char>) -> Seq<char> {
    "| "@ + pad_right_spec(a, 30) + " | "@ + pad_right_spec(b, 30) + " | "@ + pad_right_spec(c, 30)
        + " |\n"@
}

/// The row of one kudos: nothing when its receiver is unknown.
pub open spec fn kudos_row(k: SentKudos) -> Seq<char> {
    match k.to {
        Some(to) => row_text(to@, k.message@, k.timestamp@),
        None => Seq::empty(),
    }
}

/// The rows of a list of kudos, in order.
pub open spec fn kudos_rows(list: Seq<SentKudos>) -> Seq<char>
    decreases list.len(),
{
    if list.len() == 0 {
        Seq::empty()
    } else {
        kudos_rows(list.drop_last()) + kudos_row(list.last())
    }
}

/// The reply to a call that asked for `amount` kudos in the order `choice`,
/// given what the ledger answered.
pub open spec fn kudos_list_text(
    choice: OptionChoice,
    amount: i64,
    answer: Result<Vec<SentKudos>, String>,
) -> Seq<char> {
    match answer {
        Ok(list) => "Here is yours "@ + signed_decimal(amount as int) + (if choice
            == OptionChoice::First {
            " earliest "@
        } else {
            " latest "@
        }) + "kudos:\n"@ + if list@.len() == 0 {
            "Looks like you don't like anyone.\n"@ + italic_line("Yuck, that's lonely"@)
        } else {
            row_text("to"@, "message"@, "timestamp"@) + kudos_rows(list@)
        },
        Err(why) => "Got some db error for you: \n"@ + italic_line(why@),
    }
}

/// How `kudos_sent` is registered under `name`: an order, offered as the
/// choices `last` and `first`, and an amount from 1 to 20, both required.
pub open spec fn is_kudos_sent_registration(r: CommandSpec, name: Seq<char>) -> bool {
    &&& r.name@ == name
    &&& r.description@ == "get received kudos"@
    &&& r.options@.len() == 2
    &&& r.options@[0].kind == OptionKind::String
    &&& r.options@[0].name@ == "order"@
    &&& r.options@[0].description@ == "either last or first"@
    &&& r.options@[0].required
    &&& r.options@[0].min_int is None && r.options@[0].max_int is None
    &&& r.options@[0].choices@.len() == 2
    &&& r.options@[0].choices@[0].0@ == "last"@
    &&& r.options@[0].choices@[0].1@ == choice_label(OptionChoice::Last)
    &&& r.options@[0].choices@[1].0@ == "first"@
    &&& r.options@[0].choices@[1].1@ == choice_label(OptionChoice::First)
    &&& r.options@[1].kind == OptionKind::Integer
    &&& r.options@[1].name@ == "amount"@
    &&& r.options@[1].description@ == "max records to show"@
    &&& r.options@[1].required
    &&& r.options@[1].min_int == Some(1i64)
    &&& r.options@[1].max_int == Some(20i64)
    &&& r.options@[1].choices@.len() == 0
}

/// The reply to a call whose options could not be read.
pub open spec fn wrong_arguments_text() -> Seq<char> {
    "Wrong arguments, buddy.\n"@ + italic_line("Try again ?"@)
}

impl OptionChoice {
    /// The word this order is written as.
    pub fn label(&self) -> (r: String)
        ensures
            r@ == choice_label(*self),
    {
        match self {
            OptionChoice::First => String::from_str("first"),
            _ => String::from_str("last"),
        }
    }
}

fn row(a: &str, b: &str, c: &str) -> (r: String)
    ensures
        r@ == row_text(a@, b@, c@),
{
    let mut r = String::from_str("| ");
    r.append(pad_right(a, 30).as_str());
    r.append(" | ");
    r.append(pad_right(b, 30).as_str());
    r.append(" | ");
    r.append(pad_right(c, 30).as_str());
    r.append(" |\n");
    r
}

impl Command {
    /// The order that `choice` names: `last`, `first`, or neither.
    pub fn parse_choice_string(choice: &String) -> (r: OptionChoice)
        ensures
            r == choice_of(choice@),
    {
        if same_text(choice.as_str(), "last") {
            return OptionChoice::Last;
        } else if same_text(choice.as_str(), "first") {
            return OptionChoice::First;
        }
        return OptionChoice::Unknown;
    }

    /// Reads the order (first option) and the amount (second option).
    pub fn unwrap_options(options: &Vec<CommandOption>) -> (r: Option<(OptionChoice, i64)>)
        requires
            options_readable(options@),
        ensures
            r == options_of(options@),
    {
        let amount = options[1].resolved.as_ref().unwrap();
        if let OptionValue::Integer(amount) = amount {
            let order_choice = options[0].resolved.as_ref().unwrap();
            if let OptionValue::String(order) = order_choice {
                let choice = Self::parse_choice_string(order);
                if let OptionChoice::Unknown = choice {
                    return None;
                } else {
                    return Some((choice, *amount));
                }
            }
        }
        None
    }

    /// The order in which the ledger is asked: oldest first for `first`,
    /// newest first otherwise.
    pub fn direction(choice: OptionChoice) -> (r: SortDirection)
        ensures
            r == (if choice == OptionChoice::First {
                SortDirection::Ascending
            } else {
                SortDirection::Descending
            }),
    {
        if let OptionChoice::First = choice {
            SortDirection::Ascending
        } else {
            SortDirection::Descending
        }
    }

    /// The reply to a call that asked for `amount` kudos in the order
    /// `choice`, given what the ledger answered.
    pub fn kudos_list_response(
        choice: OptionChoice,
        amount: i64,
        answer: &Result<Vec<SentKudos>, String>,
    ) -> (r: String)
        ensures
            r@ == kudos_list_text(choice, amount, *answer),
    {
        match answer {
            Ok(list) => {
                let mut r = String::from_str("Here is yours ");
                r.append(i64_to_decimal(amount).as_str());
                if let OptionChoice::First = choice {
                    r.append(" earliest ");
                } else {
                    r.append(" latest ");
                }
                r.append("kudos:\n");
                if list.len() == 0 {
                    r.append("Looks like you don't like anyone.\n");
                    r.append(italic_line_safe("Yuck, that's lonely").as_str());
                } else {
                    r.append(row("to", "message", "timestamp").as_str());
                    let ghost head = r@;
                    let mut i: usize = 0;
                    while i < list.len()
                        invariant
                            i <= list@.len(),
                            r@ == head + kudos_rows(list@.take(i as int)),
                        decreases list@.len() - i,
                    {
                        assert(list@.take(i + 1).drop_last() =~= list@.take(i as int));
                        assert(list@.take(i + 1).last() == list@[i as int]);
                        let kudos = &list[i];
                        if let Some(to) = &kudos.to {
                            r.append(
                                row(to.as_str(), kudos.message.as_str(), kudos.timestamp.as_str()).as_str(),
                            );
                        }
                        i = i + 1;
                    }
                    assert(list@.take(list@.len() as int) =~= list@);
                }
                r
            },
            Err(why) => {
                let mut r = String::from_str("Got some db error for you: \n");
                r.append(italic_line_safe(why.as_str()).as_str());
                r
            },
        }
    }

    /// How the command is registered under `name`: an order, offered as the
    /// choices `last` and `first`, and an amount from 1 to 20, both required.
    pub fn register(name: &str) -> (r: CommandSpec)
        ensures
            is_kudos_sent_registration(r, name@),
    {
        let mut spec = command_without_options(name, "get received kudos");
        let mut order = plain_option(OptionKind::String, "order", "either last or first", true);
        order.choices.push((String::from_str("last"), OptionChoice::Last.label()));
        order.choices.push((String::from_str("first"), OptionChoice::First.label()));
        spec.options.push(order);
        let mut amount = plain_option(OptionKind::Integer, "amount", "max records to show", true);
        amount.min_int = Some(1);
        amount.max_int = Some(20);
        spec.options.push(amount);
        spec
    }

    /// The reply to a call whose options could not be read.
    pub fn wrong_arguments_response() -> (r: String)
        ensures
            r@ == wrong_arguments_text(),
    {
        let mut r = String::from_str("Wrong arguments, buddy.\n");
        r.append(italic_line_safe("Try again ?").as_str());
        r
    }
}

/// Law: the word an order is written as reads back as that order, for the
/// two orders a member can ask for.
pub proof fn lemma_choice_label_reads_back(choice: OptionChoice)
    requires
        choice != OptionChoice::Unknown,
    ensures
        choice_of(choice_label(choice)) == choice,
{
    reveal_strlit("first");
    reveal_strlit("last");
    assert("first"@ != "last"@) by {
        assert("first"@[0] != "last"@[0]);
    }
}

/// Law: the word `last` asks for the latest kudos and `first` for the
/// earliest; no other word names an order.
pub proof fn lemma_choice_words(word: Seq<char>)
    ensures
        choice_of(word) == OptionChoice::Last <==> word == "last"@,
        choice_of(word) == OptionChoice::First <==> word == "first"@,
        choice_of(word) == OptionChoice::Unknown <==> (word != "last"@ && word != "first"@),
{
    reveal_strlit("first");
    reveal_strlit("last");
    assert("first"@ != "last"@) by {
        assert("first"@[0] != "last"@[0]);
    }
}

/// Law: reading an order word and an integer amount gives the order that
/// word names and that very amount: `last` gives the latest kudos, `first`
/// the earliest, any other word nothing; an amount that is not an integer
/// gives nothing.
pub proof fn lemma_options_give_the_named_order(options: Seq<CommandOption>)
    requires
        options_readable(options),
    ensures
        forall|word: String, amount: i64|
            options[0].resolved == Some(OptionValue::String(word)) && options[1].resolved == Some(
                OptionValue::Integer(amount),
            ) ==> options_of(options) == (if word@ == "last"@ {
                Some((OptionChoice::Last, amount))
            } else if word@ == "first"@ {
                Some((OptionChoice::First, amount))
            } else {
                None::<(OptionChoice, i64)>
            }),
        !(options[1].resolved.unwrap() is Integer) ==> options_of(options) is None,
{
    assert forall|word: String, amount: i64|
        options[0].resolved == Some(OptionValue::String(word)) && options[1].resolved == Some(
            OptionValue::Integer(amount),
        ) implies options_of(options) == (if word@ == "last"@ {
        Some((OptionChoice::Last, amount))
    } else if word@ == "first"@ {
        Some((OptionChoice::First, amount))
    } else {
        None::<(OptionChoice, i64)>
    }) by {
        lemma_choice_words(word@);
    }
}

/// Law: every kudos of the answer whose receiver is known has its row, in
/// order. A list of one kudos gives the opening line, the header row and the
/// kudos' row; one kudos more at the end of a list adds its row at the end
/// of the reply when its receiver is known, and nothing when not.
pub proof fn lemma_kudos_list_rows(
    choice: OptionChoice,
    amount: i64,
    shorter: Vec<SentKudos>,
    longer: Vec<SentKudos>,
    kudos: SentKudos,
)
    requires
        longer@ == shorter@.push(kudos),
    ensures
        shorter@.len() == 0 ==> kudos_list_text(choice, amount, Ok(longer)) == "Here is yours "@
            + signed_decimal(amount as int) + (if choice == OptionChoice::First {
            " earliest "@
        } else {
            " latest "@
        }) + "kudos:\n"@ + row_text("to"@, "message"@, "timestamp"@) + match kudos.to {
            Some(to) => row_text(to@, kudos.message@, kudos.timestamp@),
            None => Seq::empty(),
        },
        shorter@.len() > 0 ==> kudos_list_text(choice, amount, Ok(longer)) == kudos_list_text(
            choice,
            amount,
            Ok(shorter),
        ) + match kudos.to {
            Some(to) => row_text(to@, kudos.message@, kudos.timestamp@),
            None => Seq::empty(),
        },
{
    assert(longer@.drop_last() =~= shorter@);
    assert(longer@.last() == kudos);
    if shorter@.len() == 0 {
        assert(kudos_rows(shorter@) =~= Seq::<char>::empty());
    }
}

/// Law: the replies that carry no row. An empty answer gives the opening
/// line and the lonely note; a failed lookup gives the error in italics,
/// whatever the order and amount.
pub proof fn lemma_kudos_list_without_rows(
    choice: OptionChoice,
    amount: i64,
    empty: Vec<SentKudos>,
    why: String,
)
    requires
        empty@.len() == 0,
    ensures
        kudos_list_text(choice, amount, Ok(empty)) == "Here is yours "@ + signed_decimal(
            amount as int,
        ) + (if choice == OptionChoice::First {
            " earliest "@
        } else {
            " latest "@
        }) + "kudos:\n"@ + "Looks like you don't like anyone.\n"@ + italic_line(
            "Yuck, that's lonely"@,
        ),
        kudos_list_text(choice, amount, Err(why)) == "Got some db error for you: \n"@
            + italic_line(why@),
{
}

} // verus!
