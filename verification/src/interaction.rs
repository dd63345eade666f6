//! What the bot decides around one slash-command interaction: which command
//! a name selects, and how a reply longer than Discord accepts is cut into
//! the messages that are sent one after the other.
use crate::commands::command::{is_default_registration, register, CommandSpec};
use crate::commands::give_kudos::{is_give_kudos_registration, Command as GiveKudos};
use crate::commands::kudos_sent::{is_kudos_sent_registration, Command as KudosSent};
use vstd::prelude::*;
use vstd::string::StringSliceAdditionalSpecFns;
use vstd::utf8::*;

verus! {

broadcast use vstd::utf8::encode_utf8_valid_utf8, vstd::utf8::encode_utf8_decode_utf8;

/// Most characters the bot puts in one message.
pub const DISCORD_RESPONSE_LIMIT: usize = 1996;

/// Number of pieces a reply of `n` characters is cut into, when it is cut.
pub open spec fn piece_count(n: nat) -> nat {
    ((n + DISCORD_RESPONSE_LIMIT - 1) / (DISCORD_RESPONSE_LIMIT as int)) as nat
}

/// Offset where piece `k` starts.
pub open spec fn piece_start(k: int) -> int {
    k * DISCORD_RESPONSE_LIMIT
}

/// Offset where piece `k` of a reply of `n` characters ends.
pub open spec fn piece_end(k: int, n: int) -> int {
    if (k + 1) * DISCORD_RESPONSE_LIMIT < n {
        (k + 1) * DISCORD_RESPONSE_LIMIT
    } else {
        n
    }
}

/// Both ends of piece `k` are character boundaries of the encoded reply.
///
/// The cuts are placed at character counts but applied to the UTF-8 bytes,
/// so with characters of more than one byte a cut may fall inside one.
pub open spec fn cut_ok(bytes: Seq<u8>, n: int, k: int) -> bool {
    &&& is_char_boundary(bytes, piece_start(k))
    &&& is_char_boundary(bytes, piece_end(k, n))
}

/// A reply can be sent: it fits in one message, or every cut lands on a
/// character boundary of its UTF-8 encoding.
pub open spec fn can_split(content: Seq<char>) -> bool {
    ||| content.len() <= DISCORD_RESPONSE_LIMIT
    ||| forall|k: int|
        0 <= k < piece_count(content.len()) ==> #[trigger] cut_ok(
            encode_utf8(content),
            content.len() as int,
            k,
        )
}

/// `pieces` are the messages that `content` is sent as: the whole reply when
/// it fits in one message; else, for each `k`, the bytes of the reply from
/// offset `k * 1996` to `min((k + 1) * 1996, n)`, where `n` is its number of
/// characters.
pub open spec fn is_split_of(content: Seq<char>, pieces: Seq<Seq<char>>) -> bool {
    if content.len() <= DISCORD_RESPONSE_LIMIT {
        pieces == seq![content]
    } else {
        &&& pieces.len() == piece_count(content.len())
        &&& forall|k: int|
            0 <= k < pieces.len() ==> encode_utf8(#[trigger] pieces[k]) == encode_utf8(
                content,
            ).subrange(piece_start(k), piece_end(k, content.len() as int))
    }
}

/// The characters of each `String` in order.
pub open spec fn views(v: Seq<String>) -> Seq<Seq<char>> {
    v.map_values(|s: String| s@)
}

/// The slash commands the bot registers and runs.
#[derive(PartialEq, Eq, Structural, Clone, Copy, Debug)]
pub enum CommandName {
    Me,
    AddMembers,
    GiveKudos,
    KudosSent,
}

/// The name a command is registered and called by.
pub open spec fn command_name_text(command: CommandName) -> Seq<char> {
    match command {
        CommandName::Me => "me"@,
        CommandName::AddMembers => "add_members"@,
        CommandName::GiveKudos => "give_kudos"@,
        CommandName::KudosSent => "kudos_sent"@,
    }
}

/// The command a name calls, if any.
pub open spec fn command_of(name: Seq<char>) -> Option<CommandName> {
    if name == "me"@ {
        Some(CommandName::Me)
    } else if name == "add_members"@ {
        Some(CommandName::AddMembers)
    } else if name == "give_kudos"@ {
        Some(CommandName::GiveKudos)
    } else if name == "kudos_sent"@ {
        Some(CommandName::KudosSent)
    } else {
        None
    }
}

impl CommandName {
    /// The name this command is registered and called by.
    pub fn name(&self) -> (r: &'static str)
        ensures
            r@ == command_name_text(*self),
    {
        match self {
            CommandName::Me => "me",
            CommandName::AddMembers => "add_members",
            CommandName::GiveKudos => "give_kudos",
            CommandName::KudosSent => "kudos_sent",
        }
    }
}

/// The command that an interaction names, or `None` for a name the bot does
/// not know.
pub fn parse_command_name(name: &str) -> (r: Option<CommandName>)
    ensures
        r == command_of(name@),
{
    if crate::text::same_text(name, "me") {
        Some(CommandName::Me)
    } else if crate::text::same_text(name, "add_members") {
        Some(CommandName::AddMembers)
    } else if crate::text::same_text(name, "give_kudos") {
        Some(CommandName::GiveKudos)
    } else if crate::text::same_text(name, "kudos_sent") {
        Some(CommandName::KudosSent)
    } else {
        None
    }
}

/// The reply to an interaction whose name calls no command.
pub fn unknown_command_message() -> (r: String)
    ensures
        r@ == "Unknown command"@,
{
    String::from_str("Unknown command")
}

/// How every command the bot answers is registered, in order: `me`,
/// `add_members`, `give_kudos`, `kudos_sent`, each under its name.
pub fn registrations() -> (r: Vec<CommandSpec>)
    ensures
        r@.len() == 4,
        is_default_registration(r@[0], command_name_text(CommandName::Me)),
        is_default_registration(r@[1], command_name_text(CommandName::AddMembers)),
        is_give_kudos_registration(r@[2], command_name_text(CommandName::GiveKudos)),
        is_kudos_sent_registration(r@[3], command_name_text(CommandName::KudosSent)),
{
    let mut r: Vec<CommandSpec> = Vec::new();
    r.push(register(CommandName::Me.name()));
    r.push(register(CommandName::AddMembers.name()));
    r.push(GiveKudos::register(CommandName::GiveKudos.name()));
    r.push(KudosSent::register(CommandName::KudosSent.name()));
    r
}

/// Law: the name a command is registered by calls that command.
pub proof fn lemma_registered_name_calls_command(command: CommandName)
    ensures
        command_of(command_name_text(command)) == Some(command),
{
    reveal_strlit("me");
    reveal_strlit("add_members");
    reveal_strlit("give_kudos");
    reveal_strlit("kudos_sent");
    assert("me"@.len() != "add_members"@.len());
    assert("me"@.len() != "give_kudos"@.len());
    assert("me"@.len() != "kudos_sent"@.len());
    assert("add_members"@[0] != "give_kudos"@[0]);
    assert("add_members"@[0] != "kudos_sent"@[0]);
    assert("give_kudos"@[0] != "kudos_sent"@[0]);
}

/// A cut that is a character boundary of a valid encoding stays one in the
/// bytes that follow an earlier boundary.
proof fn lemma_boundary_in_suffix(bytes: Seq<u8>, a: int, b: int)
    requires
        valid_utf8(bytes),
        is_char_boundary(bytes, a),
        is_char_boundary(bytes, b),
        a <= b,
    ensures
        is_char_boundary(bytes.subrange(a, bytes.len() as int), b - a),
{
    let rest = bytes.subrange(a, bytes.len() as int);
    valid_utf8_split(bytes, a);
    if b == a {
    } else if b == bytes.len() {
        is_char_boundary_start_end_of_seq(rest);
        assert(rest.len() == b - a);
    } else {
        assert(0 <= b < bytes.len()) by {
            if b > bytes.len() {
                assert(!is_char_boundary(bytes, b));
            }
        }
        is_char_boundary_iff_not_is_continuation_byte(bytes, b);
        assert(rest[b - a] == bytes[b]);
        is_char_boundary_iff_not_is_continuation_byte(rest, b - a);
    }
}

/// Cuts a reply into the messages it is sent as.
///
/// A reply of at most 1996 characters is one message. A longer one is cut
/// after every 1996 characters, the cuts being applied to its UTF-8 bytes;
/// `None` where a cut falls inside a character, which the reply cannot be
/// sliced at.
///
/// Counts of characters used as byte offsets agree only for ASCII text. For
/// a longer reply with characters of more than one byte, the pieces are the
/// bytes from 0 up to `n` (its number of characters), so the bytes after the
/// `n`-th are not sent; and where a cut falls inside a character the result
/// is `None`, where slicing the string at that byte would panic.
pub fn split_content(content: &str) -> (r: Option<Vec<String>>)
    ensures
        r is Some <==> can_split(content@),
        r matches Some(v) ==> is_split_of(content@, views(v@)),
{
    let chars_amount = content.unicode_len();
    let ghost bytes = content.spec_bytes();
    let ghost n = content@.len() as int;
    if chars_amount <= DISCORD_RESPONSE_LIMIT {
        let mut v: Vec<String> = Vec::new();
        v.push(String::from_str(content));
        assert(views(v@) =~= seq![content@]);
        return Some(v);
    }
    let mut pieces: Vec<String> = Vec::new();
    let mut start: usize = 0;
    while start < chars_amount
        invariant
            chars_amount == n,
            n == content@.len(),
            n > DISCORD_RESPONSE_LIMIT,
            bytes == content.spec_bytes(),
            bytes == encode_utf8(content@),
            start <= n,
            start < n ==> start == pieces.len() * DISCORD_RESPONSE_LIMIT,
            start == n ==> pieces.len() >= 1 && (pieces.len() - 1) * DISCORD_RESPONSE_LIMIT < n
                <= pieces.len() * DISCORD_RESPONSE_LIMIT,
            forall|j: int| 0 <= j < pieces.len() ==> #[trigger] cut_ok(bytes, n, j),
            forall|j: int|
                0 <= j < pieces.len() ==> encode_utf8(#[trigger] pieces@[j]@) == bytes.subrange(
                    piece_start(j),
                    piece_end(j, n),
                ),
        decreases n - start,
    {
        let ghost k = pieces.len() as int;
        let end: usize = if chars_amount - start <= DISCORD_RESPONSE_LIMIT {
            chars_amount
        } else {
            start + DISCORD_RESPONSE_LIMIT
        };
        assert(end == piece_end(k, n));
        assert(k < piece_count(n as nat));
        if !content.is_char_boundary(start) || !content.is_char_boundary(end) {
            assert(!cut_ok(encode_utf8(content@), content@.len() as int, k));
            assert(!can_split(content@));
            return None;
        }
        assert(cut_ok(bytes, n, k));
        let (_, rest) = content.split_at(start);
        proof {
            lemma_boundary_in_suffix(bytes, start as int, end as int);
        }
        let (piece, _) = rest.split_at(end - start);
        assert(piece.spec_bytes() =~= bytes.subrange(start as int, end as int));
        let owned = String::from_str(piece);
        pieces.push(owned);
        start = end;
    }
    proof {
        let k = pieces.len() as int;
        assert(k == piece_count(n as nat));
        assert forall|j: int| 0 <= j < piece_count(n as nat) implies #[trigger] cut_ok(
            encode_utf8(content@),
            n,
            j,
        ) by {}
        assert forall|j: int| 0 <= j < views(pieces@).len() implies encode_utf8(
            #[trigger] views(pieces@)[j],
        ) == encode_utf8(content@).subrange(piece_start(j), piece_end(j, n)) by {
            assert(views(pieces@)[j] == pieces@[j]@);
        }
    }
    Some(pieces)
}

/// Every offset up to the end of an ASCII text is a character boundary of
/// its encoding.
proof fn lemma_ascii_boundaries(content: Seq<char>, i: int)
    requires
        is_ascii_chars(content),
        0 <= i <= content.len(),
    ensures
        is_char_boundary(encode_utf8(content), i),
{
    let bytes = encode_utf8(content);
    is_ascii_chars_encode_utf8(content);
    if i == content.len() {
        is_char_boundary_start_end_of_seq(bytes);
    } else {
        assert('\0' <= content[i] <= '\u{7f}');
        assert(content[i] as u8 == bytes[i]);
        assert(bytes[i] < 0x80);
        is_char_boundary_iff_not_is_continuation_byte(bytes, i);
    }
}

/// The characters between two offsets of an ASCII text are the ones whose
/// encoding lies between the same offsets of its encoding.
proof fn lemma_ascii_piece(content: Seq<char>, piece: Seq<char>, a: int, b: int)
    requires
        is_ascii_chars(content),
        0 <= a <= b <= content.len(),
        encode_utf8(piece) == encode_utf8(content).subrange(a, b),
    ensures
        piece == content.subrange(a, b),
{
    let sub = content.subrange(a, b);
    assert(is_ascii_chars(sub));
    is_ascii_chars_encode_utf8(content);
    is_ascii_chars_encode_utf8(sub);
    assert(encode_utf8(sub) =~= encode_utf8(content).subrange(a, b)) by {
        assert forall|i: int| 0 <= i < sub.len() implies #[trigger] encode_utf8(sub)[i]
            == encode_utf8(content).subrange(a, b)[i] by {
            assert(sub[i] == content[a + i]);
            assert(sub[i] as u8 == encode_utf8(sub)[i]);
            assert(content[a + i] as u8 == encode_utf8(content)[a + i]);
        }
    }
    assert(decode_utf8(encode_utf8(piece)) == piece);
    assert(decode_utf8(encode_utf8(sub)) == sub);
}

/// The first `m` pieces of a reply cut at every 1996 characters, put
/// together, are the reply up to the end of piece `m - 1`.
proof fn lemma_pieces_prefix(content: Seq<char>, pieces: Seq<Seq<char>>, m: int)
    requires
        content.len() > DISCORD_RESPONSE_LIMIT,
        pieces.len() == piece_count(content.len()),
        forall|k: int|
            0 <= k < pieces.len() ==> #[trigger] pieces[k] == content.subrange(
                piece_start(k),
                piece_end(k, content.len() as int),
            ),
        0 <= m <= pieces.len(),
    ensures
        pieces.take(m).flatten_alt() == content.subrange(
            0,
            if m * DISCORD_RESPONSE_LIMIT < content.len() {
                m * DISCORD_RESPONSE_LIMIT
            } else {
                content.len() as int
            },
        ),
    decreases m,
{
    let n = content.len() as int;
    if m == 0 {
        assert(pieces.take(0) =~= Seq::<Seq<char>>::empty());
        assert(content.subrange(0, 0) =~= Seq::<char>::empty());
    } else {
        lemma_pieces_prefix(content, pieces, m - 1);
        let p = pieces.take(m);
        assert(p.drop_last() =~= pieces.take(m - 1));
        assert(p.last() == pieces[m - 1]);
        assert((m - 1) * DISCORD_RESPONSE_LIMIT < n);
        let prev = (m - 1) * DISCORD_RESPONSE_LIMIT;
        let end = piece_end(m - 1, n);
        assert(content.subrange(0, prev) + content.subrange(prev, end) =~= content.subrange(
            0,
            end,
        ));
    }
}

/// Law: a reply written in ASCII is always sent, and the messages it is cut
/// into, put together, give the whole reply back, none of them longer than
/// 1996 characters.
pub proof fn lemma_ascii_reply_sent_whole(content: Seq<char>, pieces: Seq<Seq<char>>)
    requires
        is_ascii_chars(content),
    ensures
        can_split(content),
        is_split_of(content, pieces) ==> pieces.flatten() == content,
        is_split_of(content, pieces) ==> forall|k: int|
            0 <= k < pieces.len() ==> (#[trigger] pieces[k]).len() <= DISCORD_RESPONSE_LIMIT,
{
    let n = content.len() as int;
    if n > DISCORD_RESPONSE_LIMIT {
        assert forall|k: int| 0 <= k < piece_count(content.len()) implies #[trigger] cut_ok(
            encode_utf8(content),
            n,
            k,
        ) by {
            assert(k * DISCORD_RESPONSE_LIMIT < n);
            lemma_ascii_boundaries(content, piece_start(k));
            lemma_ascii_boundaries(content, piece_end(k, n));
        }
        if is_split_of(content, pieces) {
            assert forall|k: int| 0 <= k < pieces.len() implies #[trigger] pieces[k]
                == content.subrange(piece_start(k), piece_end(k, n)) by {
                assert(k * DISCORD_RESPONSE_LIMIT < n);
                lemma_ascii_piece(content, pieces[k], piece_start(k), piece_end(k, n));
            }
            lemma_pieces_prefix(content, pieces, pieces.len() as int);
            assert(pieces.take(pieces.len() as int) =~= pieces);
            assert(content.subrange(0, n) =~= content);
            pieces.lemma_flatten_and_flatten_alt_are_equivalent();
        }
    } else {
        if is_split_of(content, pieces) {
            assert(pieces =~= seq![content]);
            pieces.lemma_flatten_one_element();
        }
    }
}

} // verus!
