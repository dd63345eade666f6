//! Discord markdown pieces, written by serenity's `MessageBuilder`.
//!
//! Every `push_*` method of `MessageBuilder` appends to the text built so far
//! and reads nothing of it, so a message is the concatenation of what each
//! push writes on an empty builder. The functions here return that piece.
use serenity::utils::MessageBuilder;
use vstd::prelude::*;

verus! {

/// `s` with every match of `pat` replaced by `rep`, the matches taken from
/// the left and not overlapping, as `str::replace` does for a non-empty
/// pattern.
pub open spec fn replace_all(s: Seq<char>, pat: Seq<char>, rep: Seq<char>) -> Seq<char>
    decreases s.len(),
{
    if pat.len() == 0 || s.len() < pat.len() {
        s
    } else if s.subrange(0, pat.len() as int) == pat {
        rep + replace_all(s.subrange(pat.len() as int, s.len() as int), pat, rep)
    } else {
        seq![s[0]] + replace_all(s.subrange(1, s.len() as int), pat, rep)
    }
}

/// The characters that serenity's neutralising turns into a space: the
/// right-to-left override, mark and embedding, the zero-width space, joiner
/// and non-joiner.
pub open spec fn is_hidden_char(c: char) -> bool {
    c == '\u{202E}' || c == '\u{200F}' || c == '\u{202B}' || c == '\u{200B}' || c == '\u{200D}'
        || c == '\u{200C}'
}

/// What serenity's `normalize` (in `utils/message_builder.rs`) makes of a
/// text: invite links broken with a one-dot leader, the hidden characters
/// turned into spaces, and `@everyone` and `@here` broken with a zero-width
/// space, in that order.
pub open spec fn normalized(text: Seq<char>) -> Seq<char> {
    let links = replace_all(
        replace_all(
            replace_all(
                replace_all(
                    replace_all(
                        replace_all(text, "discord.gg"@, "discord\u{2024}gg"@),
                        "discord.me"@,
                        "discord\u{2024}me"@,
                    ),
                    "discordlist.net"@,
                    "discordlist\u{2024}net"@,
                ),
                "discordservers.com"@,
                "discordservers\u{2024}com"@,
            ),
            "discord.com/invite"@,
            "discord\u{2024}com/invite"@,
        ),
        "discordapp.com/invite"@,
        "discordapp\u{2024}com/invite"@,
    );
    let visible = links.map_values(|c: char| if is_hidden_char(c) { ' ' } else { c });
    replace_all(
        replace_all(visible, "@everyone"@, "@\u{200B}everyone"@),
        "@here"@,
        "@\u{200B}here"@,
    )
}

/// What `MessageBuilder::push_bold_safe` writes between its two `**`
/// markers: the normalised text with every `**` replaced by a space.
pub open spec fn bold_safe_inner(text: Seq<char>) -> Seq<char> {
    replace_all(normalized(text), "**"@, " "@)
}

/// What `MessageBuilder::push_italic_safe` writes between its two `_`
/// markers: the normalised text with every `_` replaced by a space.
pub open spec fn italic_safe_inner(text: Seq<char>) -> Seq<char> {
    replace_all(normalized(text), "_"@, " "@)
}

/// Bold text as `push_bold_safe` writes it.
pub open spec fn bold(text: Seq<char>) -> Seq<char> {
    "**"@ + bold_safe_inner(text) + "**"@
}

/// Bold text and a line break, as `push_bold_line_safe` writes them.
pub open spec fn bold_line(text: Seq<char>) -> Seq<char> {
    bold(text) + "\n"@
}

/// Italic text as `push_italic_safe` writes it.
pub open spec fn italic(text: Seq<char>) -> Seq<char> {
    "_"@ + italic_safe_inner(text) + "_"@
}

/// Italic text and a line break, as `push_italic_line_safe` writes them.
pub open spec fn italic_line(text: Seq<char>) -> Seq<char> {
    italic(text) + "\n"@
}

/// Calls `MessageBuilder::push_bold_safe` on an empty builder. The source
/// appends `**`, the normalised text with `**` replaced by a space, and
/// `**`.
#[verifier::external_body]
pub(crate) fn bold_safe(text: &str) -> (r: String)
    ensures
        r@ == "**"@ + bold_safe_inner(text@) + "**"@,
        r@ == bold(text@),
{
    let mut builder = MessageBuilder::new();
    builder.push_bold_safe(text);
    builder.build()
}

/// Calls `MessageBuilder::push_bold_line_safe` on an empty builder. The
/// source runs `push_bold_safe` and then appends a line break.
#[verifier::external_body]
pub(crate) fn bold_line_safe(text: &str) -> (r: String)
    ensures
        r@ == "**"@ + bold_safe_inner(text@) + "**"@ + "\n"@,
        r@ == bold_line(text@),
{
    let mut builder = MessageBuilder::new();
    builder.push_bold_line_safe(text);
    builder.build()
}

/// Calls `MessageBuilder::push_italic_safe` on an empty builder. The source
/// appends `_`, the normalised text with `_` replaced by a space, and `_`.
#[verifier::external_body]
pub(crate) fn italic_safe(text: &str) -> (r: String)
    ensures
        r@ == "_"@ + italic_safe_inner(text@) + "_"@,
        r@ == italic(text@),
{
    let mut builder = MessageBuilder::new();
    builder.push_italic_safe(text);
    builder.build()
}

/// Calls `MessageBuilder::push_italic_line_safe` on an empty builder. The
/// source runs `push_italic_safe` and then appends a line break.
#[verifier::external_body]
pub(crate) fn italic_line_safe(text: &str) -> (r: String)
    ensures
        r@ == "_"@ + italic_safe_inner(text@) + "_"@ + "\n"@,
        r@ == italic_line(text@),
{
    let mut builder = MessageBuilder::new();
    builder.push_italic_line_safe(text);
    builder.build()
}

} // verus!
