//! The statement parser: classifies one raw line of client input, and
//! resolves colour names against the six-entry table.

use vstd::prelude::*;
use vstd::utf8::{valid_utf8, decode_utf8};
use crate::error::CommandError;
use crate::model::{Color, CommandType, Statement, SpecCommand, SpecStatement};

verus! {

/// Drops one trailing `\r\n`, if present.
pub open spec fn strip_crlf(s: Seq<char>) -> Seq<char> {
    if s.len() >= 2 && s[s.len() - 2] == '\r' && s[s.len() - 1] == '\n' {
        s.subrange(0, s.len() - 2)
    } else {
        s
    }
}

/// The index of the first space at or after `from`, or the length if none.
pub open spec fn token_end(s: Seq<char>, from: int) -> int
    decreases s.len() - from when from <= s.len()
{
    if from >= s.len() {
        s.len() as int
    } else if s[from] == ' ' {
        from
    } else {
        token_end(s, from + 1)
    }
}

/// An index with no space before it (from `from` on) that sits on a space,
/// or at the end, is exactly `token_end`.
proof fn lemma_token_end_is(s: Seq<char>, from: int, i: int)
    requires
        0 <= from <= i <= s.len(),
        forall|j: int| from <= j < i ==> s[j] != ' ',
        i == s.len() || s[i] == ' ',
    ensures
        token_end(s, from) == i,
    decreases i - from,
{
    if from < i {
        lemma_token_end_is(s, from + 1, i);
    }
}

/// What the command classifier returns for a stripped line `t` that starts
/// with `/`: the first space-delimited token selects the command, and
/// `/color` takes the second token as its argument.
pub open spec fn spec_command(t: Seq<char>) -> SpecCommand {
    let e0 = token_end(t, 0);
    let tok = t.subrange(0, e0);
    if tok == "/quit"@ {
        SpecCommand::Quit
    } else if tok == "/color"@ {
        if e0 >= t.len() {
            SpecCommand::Invalid
        } else {
            SpecCommand::ChangeColor(t.subrange(e0 + 1, token_end(t, e0 + 1)))
        }
    } else {
        SpecCommand::Invalid
    }
}

/// What the parser returns for a raw line: strip one trailing `\r\n`; an
/// empty rest is an empty statement, a rest starting with `/` is a
/// command, and anything else is a chat message kept verbatim.
pub open spec fn spec_parse(raw: Seq<char>) -> SpecStatement {
    let t = strip_crlf(raw);
    if t.len() == 0 {
        SpecStatement::EmptyStatement
    } else if t[0] == '/' {
        SpecStatement::Command(spec_command(t))
    } else {
        SpecStatement::Message(t)
    }
}

/// Character-wise string equality, decided without assuming anything about
/// either argument.
pub fn str_eq(a: &str, b: &str) -> (r: bool)
    ensures
        r == (a@ == b@),
{
    let la = a.unicode_len();
    let lb = b.unicode_len();
    if la != lb {
        return false;
    }
    let mut i: usize = 0;
    while i < la
        invariant
            0 <= i <= la,
            la == a@.len(),
            la == b@.len(),
            forall|j: int| 0 <= j < i ==> a@[j] == b@[j],
        decreases la - i,
    {
        if a.get_char(i) != b.get_char(i) {
            return false;
        }
        i = i + 1;
    }
    proof {
        assert(a@ =~= b@);
    }
    true
}

/// Finds the first space in `t` at or after `from`, as an index.
fn find_space(t: &str, from: usize, len: usize) -> (i: usize)
    requires
        from <= len,
        len == t@.len(),
    ensures
        i == token_end(t@, from as int),
        from <= i <= len,
{
    let mut i: usize = from;
    while i < len && t.get_char(i) != ' '
        invariant
            from <= i <= len,
            len == t@.len(),
            forall|j: int| from <= j < i ==> t@[j] != ' ',
        decreases len - i,
    {
        i = i + 1;
    }
    proof {
        lemma_token_end_is(t@, from as int, i as int);
    }
    i
}

/// Classifies one raw line of client input. Total: malformed input
/// degrades to `Invalid` or `EmptyStatement`, never to a failure.
pub fn parse(input: &str) -> (stmt: Statement)
    ensures
        stmt@ == spec_parse(input@),
{
    let n = input.unicode_len();
    let stripped = n >= 2 && input.get_char(n - 2) == '\r' && input.get_char(n - 1) == '\n';
    let (t, m): (&str, usize) = if stripped {
        (input.substring_char(0, n - 2), n - 2)
    } else {
        (input, n)
    };
    proof {
        assert(t@ == strip_crlf(input@));
        assert(m == t@.len());
    }
    if m == 0 {
        return Statement::EmptyStatement;
    }
    if t.get_char(0) != '/' {
        return Statement::Message(String::from_str(t));
    }
    let e0 = find_space(t, 0, m);
    let tok = t.substring_char(0, e0);
    if str_eq(tok, "/quit") {
        return Statement::Command(CommandType::Quit);
    }
    if str_eq(tok, "/color") {
        if e0 >= m {
            return Statement::Command(CommandType::Invalid);
        }
        let e1 = find_space(t, e0 + 1, m);
        let arg = t.substring_char(e0 + 1, e1);
        return Statement::Command(CommandType::ChangeColor(String::from_str(arg)));
    }
    Statement::Command(CommandType::Invalid)
}

/// Where the colour table sends each name: the six lowercase names resolve
/// to their colours, everything else to nothing.
pub open spec fn spec_resolve_color(s: Seq<char>) -> Option<Color> {
    if s == "red"@ {
        Some(Color::Red)
    } else if s == "green"@ {
        Some(Color::Green)
    } else if s == "blue"@ {
        Some(Color::Blue)
    } else if s == "yellow"@ {
        Some(Color::Yellow)
    } else if s == "cyan"@ {
        Some(Color::Cyan)
    } else if s == "purple"@ {
        Some(Color::Purple)
    } else {
        None
    }
}

/// Resolves a colour name against the six-entry table (case-sensitive
/// lowercase names).
pub fn get_color_from_string(s: String) -> (c: Option<Color>)
    ensures
        c == spec_resolve_color(s@),
{
    if str_eq(s.as_str(), "red") {
        Some(Color::Red)
    } else if str_eq(s.as_str(), "green") {
        Some(Color::Green)
    } else if str_eq(s.as_str(), "blue") {
        Some(Color::Blue)
    } else if str_eq(s.as_str(), "yellow") {
        Some(Color::Yellow)
    } else if str_eq(s.as_str(), "cyan") {
        Some(Color::Cyan)
    } else if str_eq(s.as_str(), "purple") {
        Some(Color::Purple)
    } else {
        None
    }
}

/// Relies on `String::from_utf8`: it returns the decoded string exactly
/// when the bytes are valid UTF-8, and otherwise an error describing the
/// failure.
#[verifier::external_body]
fn utf8_decode(bytes: Vec<u8>) -> (r: Result<String, String>)
    ensures
        r is Ok <==> valid_utf8(bytes@),
        r matches Ok(s) ==> s@ == decode_utf8(bytes@),
{
    match String::from_utf8(bytes) {
        Ok(s) => Ok(s),
        Err(e) => Err(e.to_string()),
    }
}

/// Decodes one raw chunk read from the socket, surfacing a `Decode` error
/// when the bytes are not valid text.
pub fn decode_line(bytes: Vec<u8>) -> (r: Result<String, CommandError>)
    ensures
        r is Ok <==> valid_utf8(bytes@),
        r matches Ok(s) ==> s@ == decode_utf8(bytes@),
        r matches Err(e) ==> e is Decode,
{
    match utf8_decode(bytes) {
        Ok(s) => Ok(s),
        Err(m) => Err(CommandError::Decode(m)),
    }
}

/// The parser is total and decided by the stripped text alone: every line
/// classifies as exactly one of the three statement forms.
pub proof fn lemma_parse_total(raw: Seq<char>)
    ensures
        spec_parse(raw) is EmptyStatement <==> strip_crlf(raw).len() == 0,
        spec_parse(raw) is Command <==> strip_crlf(raw).len() > 0 && strip_crlf(raw)[0] == '/',
        spec_parse(raw) is Message <==> strip_crlf(raw).len() > 0 && strip_crlf(raw)[0] != '/',
{
}

/// A parsed `Message` is exactly the stripped line; in particular it is
/// non-empty and does not start with `/`.
pub proof fn lemma_parse_message(raw: Seq<char>)
    ensures
        spec_parse(raw) matches SpecStatement::Message(m) ==> m == strip_crlf(raw) && m.len() > 0
            && m[0] != '/',
{
}

/// Each of the six colour names resolves to its own colour, and nothing
/// outside the table resolves at all.
pub proof fn lemma_resolve_color_exact()
    ensures
        spec_resolve_color("red"@) == Some(Color::Red),
        spec_resolve_color("green"@) == Some(Color::Green),
        spec_resolve_color("blue"@) == Some(Color::Blue),
        spec_resolve_color("yellow"@) == Some(Color::Yellow),
        spec_resolve_color("cyan"@) == Some(Color::Cyan),
        spec_resolve_color("purple"@) == Some(Color::Purple),
        forall|s: Seq<char>| spec_resolve_color(s) is Some ==> (s == "red"@ || s == "green"@
            || s == "blue"@ || s == "yellow"@ || s == "cyan"@ || s == "purple"@),
{
    reveal_strlit("red");
    reveal_strlit("green");
    reveal_strlit("blue");
    reveal_strlit("yellow");
    reveal_strlit("cyan");
    reveal_strlit("purple");
    assert("red"@.len() == 3);
    assert("green"@.len() == 5);
    assert("blue"@.len() == 4);
    assert("yellow"@.len() == 6);
    assert("cyan"@.len() == 4);
    assert("purple"@.len() == 6);
    assert("blue"@[0] == 'b' && "cyan"@[0] == 'c');
    assert("yellow"@[0] == 'y' && "purple"@[0] == 'p');
    assert("blue"@ != "cyan"@);
    assert("yellow"@ != "purple"@);
}

} // verus!
