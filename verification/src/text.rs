//! Building query text: joining fragments and writing literals.

use vstd::prelude::*;
use vstd::string::*;

verus! {

/// `String::push`. Taken on trust: it appends the character to the text and
/// changes nothing else.
pub assume_specification[ String::push ](text: &mut String, c: char)
    ensures
        final(text)@ == old(text)@.push(c),
;

/// The fragments in order, with the separator between each two of them.
pub open spec fn joined(parts: Seq<Seq<char>>, separator: Seq<char>) -> Seq<char>
    decreases parts.len(),
{
    if parts.len() == 0 {
        Seq::empty()
    } else if parts.len() == 1 {
        parts[0]
    } else {
        joined(parts.drop_last(), separator) + separator + parts.last()
    }
}

/// Joins the fragments in order, with the separator between each two of them.
pub fn join(parts: &Vec<String>, separator: &str) -> (text: String)
    ensures
        text@ == joined(parts.deep_view(), separator@),
{
    let mut text = String::new();
    let mut i: usize = 0;
    while i < parts.len()
        invariant
            i <= parts.len(),
            text@ == joined(parts.deep_view().take(i as int), separator@),
        decreases parts.len() - i,
    {
        proof {
            let all = parts.deep_view();
            assert(all.take(i + 1).drop_last() =~= all.take(i as int));
            assert(all.take(i + 1).last() == parts[i as int]@);
            if i > 0 {
                assert(all.take(i + 1).len() > 1);
            } else {
                assert(joined(all.take(0), separator@) =~= Seq::<char>::empty());
                assert(all.take(1)[0] == parts[0]@);
            }
        }
        if i > 0 {
            text.append(separator);
        }
        text.append(parts[i].as_str());
        i += 1;
    }
    proof {
        assert(parts.deep_view().take(parts.len() as int) =~= parts.deep_view());
    }
    text
}

/// The character for a digit.
pub open spec fn digit_char(digit: nat) -> char {
    if digit == 0 {
        '0'
    } else if digit == 1 {
        '1'
    } else if digit == 2 {
        '2'
    } else if digit == 3 {
        '3'
    } else if digit == 4 {
        '4'
    } else if digit == 5 {
        '5'
    } else if digit == 6 {
        '6'
    } else if digit == 7 {
        '7'
    } else if digit == 8 {
        '8'
    } else {
        '9'
    }
}

/// The digits of a number in base ten, the most significant first.
pub open spec fn decimal_text(n: nat) -> Seq<char>
    decreases n,
{
    if n < 10 {
        seq![digit_char(n)]
    } else {
        decimal_text(n / 10).push(digit_char(n % 10))
    }
}

/// The digits of a number in base ten, with zeros before them as far as there
/// are fewer than two.
pub open spec fn two_digit_text(n: nat) -> Seq<char> {
    if n < 10 {
        seq!['0'] + decimal_text(n)
    } else {
        decimal_text(n)
    }
}

/// The character for a digit.
fn digit(d: u64) -> (c: char)
    requires
        d < 10,
    ensures
        c == digit_char(d as nat),
{
    match d {
        0 => '0',
        1 => '1',
        2 => '2',
        3 => '3',
        4 => '4',
        5 => '5',
        6 => '6',
        7 => '7',
        8 => '8',
        _ => '9',
    }
}

/// Appends the digits of a number in base ten.
pub fn append_decimal(text: &mut String, n: u64)
    ensures
        final(text)@ == old(text)@ + decimal_text(n as nat),
    decreases n,
{
    if n >= 10 {
        append_decimal(text, n / 10);
    }
    text.push(digit(n % 10));
    proof {
        if n >= 10 {
            assert(text@ =~= old(text)@ + decimal_text(n as nat));
        } else {
            assert(text@ =~= old(text)@ + decimal_text(n as nat));
        }
    }
}

/// Appends the digits of a number in base ten, after a zero if there is only
/// one.
pub fn append_two_digits(text: &mut String, n: u64)
    ensures
        final(text)@ == old(text)@ + two_digit_text(n as nat),
{
    if n < 10 {
        text.push('0');
    }
    append_decimal(text, n);
    proof {
        assert(text@ =~= old(text)@ + two_digit_text(n as nat));
    }
}

/// How a quote inside a text literal is written.
#[derive(Clone, Copy, Debug, PartialEq, Eq, Structural)]
pub enum Quoting {
    /// A quote is written twice; every other character stands for itself.
    Doubled,
    /// A quote and a backslash are each written after a backslash.
    Backslash,
}

/// Whether the character is a control character, which no literal may hold.
pub open spec fn is_control(c: char) -> bool {
    (c as u32) < 0x20 || (c as u32) == 0x7f
}

/// Whether a text can be written as a literal: it holds no control character.
pub open spec fn embeddable(text: Seq<char>) -> bool {
    forall|i: int| 0 <= i < text.len() ==> !is_control(#[trigger] text[i])
}

impl Quoting {
    /// What stands for one character inside a literal.
    pub open spec fn written(self, c: char) -> Seq<char> {
        match self {
            Quoting::Doubled => if c == '\'' {
                seq!['\'', '\'']
            } else {
                seq![c]
            },
            Quoting::Backslash => if c == '\'' || c == '\\' {
                seq!['\\', c]
            } else {
                seq![c]
            },
        }
    }

    /// The characters of a text as they stand inside a literal.
    pub open spec fn escaped(self, text: Seq<char>) -> Seq<char>
        decreases text.len(),
    {
        if text.len() == 0 {
            Seq::empty()
        } else {
            self.escaped(text.drop_last()) + self.written(text.last())
        }
    }

    /// The literal for a text: its escaped characters between two quotes.
    pub open spec fn literal(self, text: Seq<char>) -> Seq<char> {
        seq!['\''] + self.escaped(text) + seq!['\'']
    }

    /// A character before what was read after it.
    pub open spec fn after(c: char, rest: Option<(Seq<char>, int)>) -> Option<(Seq<char>, int)> {
        match rest {
            Some((text, end)) => Some((seq![c] + text, end)),
            None => None,
        }
    }

    /// Reads the inside of a literal as a data source does, from the position
    /// `at` on: the text that the characters stand for, and the position of
    /// the quote that closes the literal. `None` where nothing closes it.
    pub open spec fn read(self, chars: Seq<char>, at: int) -> Option<(Seq<char>, int)>
        decreases chars.len() - at,
    {
        if at < 0 || at >= chars.len() {
            None
        } else {
            let c = chars[at];
            match self {
                Quoting::Doubled => if c != '\'' {
                    Self::after(c, self.read(chars, at + 1))
                } else if at + 1 < chars.len() && chars[at + 1] == '\'' {
                    Self::after('\'', self.read(chars, at + 2))
                } else {
                    Some((Seq::empty(), at))
                },
                Quoting::Backslash => if c == '\'' {
                    Some((Seq::empty(), at))
                } else if c != '\\' {
                    Self::after(c, self.read(chars, at + 1))
                } else if at + 1 < chars.len() {
                    Self::after(chars[at + 1], self.read(chars, at + 2))
                } else {
                    None
                },
            }
        }
    }

    /// What stands for a text that starts with a character is what stands for
    /// the character, then what stands for the rest.
    pub proof fn lemma_escaped_first(self, c: char, rest: Seq<char>)
        ensures
            self.escaped(seq![c] + rest) == self.written(c) + self.escaped(rest),
        decreases rest.len(),
    {
        let text = seq![c] + rest;
        if rest.len() == 0 {
            assert(text.drop_last() =~= Seq::<char>::empty());
            assert(self.escaped(text.drop_last()) =~= Seq::<char>::empty());
            assert(self.escaped(text) =~= self.written(c) + self.escaped(rest));
        } else {
            assert(text.drop_last() =~= seq![c] + rest.drop_last());
            self.lemma_escaped_first(c, rest.drop_last());
            assert(self.escaped(text) =~= self.written(c) + self.escaped(rest));
        }
    }

    /// Whatever stands before it, a text that is written into a literal is
    /// read back as it was, up to the quote that follows it.
    pub proof fn lemma_read_after(self, before: Seq<char>, text: Seq<char>)
        ensures
            self.read(before + self.escaped(text) + seq!['\''], before.len() as int) == Some(
                (text, (before.len() + self.escaped(text).len()) as int),
            ),
        decreases text.len(),
    {
        let chars = before + self.escaped(text) + seq!['\''];
        let at = before.len() as int;
        if text.len() == 0 {
            assert(self.escaped(text) =~= Seq::<char>::empty());
            assert(chars[at] == '\'');
            assert(at + 1 == chars.len());
        } else {
            let c = text[0];
            let rest = text.drop_first();
            assert(text =~= seq![c] + rest);
            self.lemma_escaped_first(c, rest);
            let written = self.written(c);
            let further = before + written;
            assert(chars =~= further + self.escaped(rest) + seq!['\'']);
            self.lemma_read_after(further, rest);
            assert(chars[at] == written[0]);
            if written.len() == 2 {
                assert(chars[at + 1] == written[1]);
            }
            assert(seq![c] + rest =~= text);
        }
    }

    /// Injection safety: a literal is read by the data source as one text,
    /// the one it was written for. The quote that closes it is its last
    /// character, so nothing of the text is read as a part of the query.
    pub proof fn lemma_literal_reads_back(self, text: Seq<char>)
        ensures
            self.literal(text)[0] == '\'',
            self.read(self.literal(text), 1) == Some((text, (self.literal(text).len() - 1) as int)),
    {
        self.lemma_read_after(seq!['\''], text);
    }

    /// Writes a text as a literal between quotes, or returns `None` when the
    /// text holds a control character.
    pub fn quote(self, text: &str) -> (r: Option<String>)
        ensures
            embeddable(text@) ==> (r matches Some(s) && s@ == self.literal(text@)),
            !embeddable(text@) ==> r is None,
    {
        let n = text.unicode_len();
        let mut out = String::new();
        out.push('\'');
        let mut i: usize = 0;
        while i < n
            invariant
                n == text@.len(),
                i <= n,
                embeddable(text@.take(i as int)),
                out@ == seq!['\''] + self.escaped(text@.take(i as int)),
            decreases n - i,
        {
            let c = text.get_char(i);
            proof {
                assert(text@.take(i + 1).drop_last() =~= text@.take(i as int));
                assert(text@.take(i + 1).last() == c);
            }
            if (c as u32) < 0x20 || (c as u32) == 0x7f {
                return None;
            }
            match self {
                Quoting::Doubled => {
                    if c == '\'' {
                        out.push('\'');
                    }
                    out.push(c);
                },
                Quoting::Backslash => {
                    if c == '\'' || c == '\\' {
                        out.push('\\');
                    }
                    out.push(c);
                },
            }
            proof {
                let before = self.escaped(text@.take(i as int));
                let w = self.written(c);
                assert(out@ =~= seq!['\''] + (before + w));
                assert forall|j: int| 0 <= j < i + 1 implies !is_control(
                    #[trigger] text@.take(i + 1)[j],
                ) by {
                    if j < i {
                        assert(text@.take(i + 1)[j] == text@.take(i as int)[j]);
                    }
                }
            }
            i += 1;
        }
        proof {
            assert(text@.take(n as int) =~= text@);
        }
        out.push('\'');
        proof {
            assert(out@ =~= self.literal(text@));
        }
        Some(out)
    }
}

} // verus!
