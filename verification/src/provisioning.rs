//! The provisioning engine: the two administrative statements that give a
//! new account its database role, built so that no username or password can
//! step out of its quotes.

use vstd::prelude::*;
use vstd::std_specs::iter::IteratorSpec;
use vstd::string::StringExecFns;

verus! {

/// `String::push` appends one character.
pub assume_specification[ String::push ](text: &mut String, c: char)
    ensures
        final(text)@ == old(text)@.push(c),
;

/// The two ways a text is quoted in a statement.
#[derive(Clone, Copy, Debug, PartialEq, Eq, Structural)]
pub enum Quoting {
    /// A name, between double quotes.
    Identifier,
    /// A string constant, between single quotes.
    Literal,
}

impl Quoting {
    /// The quote mark that opens and closes the text.
    pub open spec fn mark(self) -> char {
        match self {
            Quoting::Identifier => '"',
            Quoting::Literal => '\'',
        }
    }

    /// Whether `c` is written twice inside the quotes.
    pub open spec fn doubles(self, c: char) -> bool {
        match self {
            Quoting::Identifier => c == '"',
            Quoting::Literal => c == '\'' || c == '\\',
        }
    }
}

/// How one character is written inside the quotes.
pub open spec fn escaped_char(quoting: Quoting, c: char) -> Seq<char> {
    if quoting.doubles(c) {
        seq![c, c]
    } else {
        seq![c]
    }
}

/// How a text is written inside the quotes: character by character.
pub open spec fn escaped(quoting: Quoting, text: Seq<char>) -> Seq<char>
    decreases text.len(),
{
    if text.len() == 0 {
        Seq::empty()
    } else {
        escaped_char(quoting, text.first()) + escaped(quoting, text.drop_first())
    }
}

/// Appending a character to the text appends its escaped form.
pub proof fn escaped_push(quoting: Quoting, text: Seq<char>, c: char)
    ensures
        escaped(quoting, text.push(c)) == escaped(quoting, text) + escaped_char(quoting, c),
    decreases text.len(),
{
    if text.len() == 0 {
        assert(text.push(c).drop_first() == Seq::<char>::empty());
        assert(escaped(quoting, Seq::<char>::empty()) == Seq::<char>::empty());
        assert(escaped_char(quoting, c) + Seq::<char>::empty() == escaped_char(quoting, c));
        assert(Seq::<char>::empty() + escaped_char(quoting, c) == escaped_char(quoting, c));
    } else {
        escaped_push(quoting, text.drop_first(), c);
        assert(text.push(c).drop_first() == text.drop_first().push(c));
        assert(escaped_char(quoting, text.first()) + (escaped(quoting, text.drop_first())
            + escaped_char(quoting, c)) == (escaped_char(quoting, text.first()) + escaped(
            quoting,
            text.drop_first(),
        )) + escaped_char(quoting, c));
    }
}

/// Appends the escaped form of `text` to `out`.
fn push_escaped(out: &mut String, quoting: Quoting, text: &str)
    ensures
        final(out)@ == old(out)@ + escaped(quoting, text@),
{
    let mut it = text.chars();
    let ghost mut done: Seq<char> = Seq::empty();
    assert(old(out)@ + escaped(quoting, done) == old(out)@);
    loop
        invariant
            it.obeys_prophetic_iter_laws(),
            it.decrease() is Some,
            done + it.remaining() == text@,
            out@ == old(out)@ + escaped(quoting, done),
        ensures
            out@ == old(out)@ + escaped(quoting, text@),
        decreases it.decrease()->0,
    {
        let ghost before = it;
        match it.next() {
            Some(c) => {
                proof {
                    escaped_push(quoting, done, c);
                    assert(done.push(c) + it.remaining() == done + before.remaining());
                    done = done.push(c);
                }
                let twice: bool = match quoting {
                    Quoting::Identifier => c == '"',
                    Quoting::Literal => c == '\'' || c == '\\',
                };
                if twice {
                    out.push(c);
                    assert(seq![c, c] == Seq::<char>::empty().push(c).push(c));
                }
                out.push(c);
                assert(out@ == old(out)@ + escaped(quoting, done));
            },
            None => {
                assert(done == text@);
                break ;
            },
        }
    }
}

/// What stands in front of the escaped text: the quote mark, and before the
/// mark of a string constant the letter `E`, under which a doubled backslash
/// is read as one whatever the server's settings.
pub open spec fn opening(quoting: Quoting) -> Seq<char> {
    match quoting {
        Quoting::Identifier => seq!['"'],
        Quoting::Literal => seq!['E', '\''],
    }
}

/// A text in quotes: the opening, the escaped text, the closing mark.
pub open spec fn quoted(quoting: Quoting, text: Seq<char>) -> Seq<char> {
    opening(quoting) + escaped(quoting, text) + seq![quoting.mark()]
}

/// Appends `text` in quotes to `out`.
fn push_quoted(out: &mut String, quoting: Quoting, text: &str)
    ensures
        final(out)@ == old(out)@ + quoted(quoting, text@),
{
    match quoting {
        Quoting::Identifier => {
            out.push('"');
        },
        Quoting::Literal => {
            out.push('E');
            out.push('\'');
        },
    }
    assert(out@ == old(out)@ + opening(quoting));
    push_escaped(out, quoting, text);
    match quoting {
        Quoting::Identifier => {
            out.push('"');
        },
        Quoting::Literal => {
            out.push('\'');
        },
    }
    assert(out@ == old(out)@ + quoted(quoting, text@));
}

/// Writes `text` in quotes, as a name or as a string constant.
pub fn quote(quoting: Quoting, text: &str) -> (r: String)
    ensures
        r@ == quoted(quoting, text@),
{
    let mut out = String::new();
    push_quoted(&mut out, quoting, text);
    assert(Seq::<char>::empty() + quoted(quoting, text@) == quoted(quoting, text@));
    out
}

/// The statement that creates the login role of a new account: the role is
/// named as the account is, and logs in with the account's password.
pub open spec fn create_role_text(username: Seq<char>, password: Seq<char>) -> Seq<char> {
    "CREATE USER "@ + quoted(Quoting::Identifier, username) + " WITH PASSWORD "@ + quoted(
        Quoting::Literal,
        password,
    ) + ";"@
}

/// The statement that makes the role of a new account a member of the read
/// group.
pub open spec fn grant_text(username: Seq<char>) -> Seq<char> {
    "GRANT housing_reader TO "@ + quoted(Quoting::Identifier, username) + ";"@
}

/// Builds the statement that creates the login role.
pub fn create_role_statement(username: &str, password: &str) -> (statement: String)
    ensures
        statement@ == create_role_text(username@, password@),
{
    let mut out = "CREATE USER ".to_owned();
    push_quoted(&mut out, Quoting::Identifier, username);
    out.append(" WITH PASSWORD ");
    push_quoted(&mut out, Quoting::Literal, password);
    out.append(";");
    out
}

/// Builds the statement that grants the read group to the role.
pub fn grant_statement(username: &str) -> (statement: String)
    ensures
        statement@ == grant_text(username@),
{
    let mut out = "GRANT housing_reader TO ".to_owned();
    push_quoted(&mut out, Quoting::Identifier, username);
    out.append(";");
    out
}

/// How a reader of statements takes in what follows an opening: a doubled
/// character stands for one, and the first quote mark that is not doubled
/// closes the text. The result is the text read and the number of characters
/// taken, the closing mark among them; there is none where the input ends
/// before the text is closed, or where a backslash stands alone.
pub open spec fn read_quoted(quoting: Quoting, input: Seq<char>) -> Option<(Seq<char>, int)>
    decreases input.len(),
{
    if input.len() == 0 {
        None
    } else if quoting.doubles(input[0]) {
        if input.len() >= 2 && input[1] == input[0] {
            match read_quoted(quoting, input.skip(2)) {
                Some((text, taken)) => Some((seq![input[0]] + text, taken + 2)),
                None => None,
            }
        } else if input[0] == quoting.mark() {
            Some((Seq::empty(), 1))
        } else {
            None
        }
    } else {
        match read_quoted(quoting, input.skip(1)) {
            Some((text, taken)) => Some((seq![input[0]] + text, taken + 1)),
            None => None,
        }
    }
}

/// No text steps out of its quotes: whatever `text` holds, a reader that
/// starts behind the opening reads exactly `text` and stops at the closing
/// mark that was written for it, provided that what follows does not begin
/// with another quote mark.
pub proof fn quoted_reads_back(quoting: Quoting, text: Seq<char>, rest: Seq<char>)
    requires
        rest.len() == 0 || rest[0] != quoting.mark(),
    ensures
        read_quoted(quoting, escaped(quoting, text) + seq![quoting.mark()] + rest) == Some(
            (text, escaped(quoting, text).len() as int + 1),
        ),
    decreases text.len(),
{
    let mark = quoting.mark();
    let input = escaped(quoting, text) + seq![mark] + rest;
    if text.len() == 0 {
        assert(escaped(quoting, text) == Seq::<char>::empty());
        assert(input[0] == mark);
        assert(quoting.doubles(mark));
        if input.len() >= 2 {
            assert(input[1] == rest[0]);
        }
    } else {
        let c = text.first();
        let tail = text.drop_first();
        let tail_input = escaped(quoting, tail) + seq![mark] + rest;
        quoted_reads_back(quoting, tail, rest);
        assert(seq![c] + tail == text);
        if quoting.doubles(c) {
            assert(input == seq![c, c] + escaped(quoting, tail) + seq![mark] + rest);
            assert(input[0] == c && input[1] == c);
            assert(input.skip(2) == tail_input);
        } else {
            assert(input == seq![c] + escaped(quoting, tail) + seq![mark] + rest);
            assert(input[0] == c);
            assert(input.skip(1) == tail_input);
        }
    }
}

} // verus!
