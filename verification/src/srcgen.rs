//! The source-text emitter.
//!
//! A `Formatter` collects output lines in one linear, append-only pass.
//! Indentation is explicit and scoped: entering a brace-delimited block
//! pushes one level, leaving it pops the level again; a mismatched pop is a
//! programming error. The finished text is handed to the write-if-changed
//! contract: a file is only replaced when the new content differs byte for
//! byte, so repeated runs over unchanged input never touch the filesystem.

use vstd::prelude::*;

verus! {

/// The decimal digit character for one digit value.
pub open spec fn spec_dec_digit(d: int) -> char {
    if d == 0 {
        '0'
    } else if d == 1 {
        '1'
    } else if d == 2 {
        '2'
    } else if d == 3 {
        '3'
    } else if d == 4 {
        '4'
    } else if d == 5 {
        '5'
    } else if d == 6 {
        '6'
    } else if d == 7 {
        '7'
    } else if d == 8 {
        '8'
    } else {
        '9'
    }
}

/// The decimal rendering of a nonnegative number, most significant digit
/// first.
pub open spec fn spec_dec(n: int) -> Seq<char>
    decreases n,
{
    if n < 10 {
        seq![spec_dec_digit(n)]
    } else {
        spec_dec(n / 10).push(spec_dec_digit(n % 10))
    }
}

/// The lowercase hexadecimal digit character for one digit value.
pub open spec fn spec_hex_digit(d: int) -> char {
    if d == 0 {
        '0'
    } else if d == 1 {
        '1'
    } else if d == 2 {
        '2'
    } else if d == 3 {
        '3'
    } else if d == 4 {
        '4'
    } else if d == 5 {
        '5'
    } else if d == 6 {
        '6'
    } else if d == 7 {
        '7'
    } else if d == 8 {
        '8'
    } else if d == 9 {
        '9'
    } else if d == 10 {
        'a'
    } else if d == 11 {
        'b'
    } else if d == 12 {
        'c'
    } else if d == 13 {
        'd'
    } else if d == 14 {
        'e'
    } else {
        'f'
    }
}

/// The two-digit hexadecimal rendering of a byte, with the `0x` prefix.
pub open spec fn spec_hex2(n: int) -> Seq<char> {
    seq!['0', 'x', spec_hex_digit(n / 16), spec_hex_digit(n % 16)]
}

/// One decimal digit as text.
fn dec_digit(d: u32) -> (r: &'static str)
    requires
        d < 10,
    ensures
        r@ == seq![spec_dec_digit(d as int)],
{
    match d {
        0 => {
            proof {
                reveal_strlit("0");
                assert("0"@ =~= seq!['0']);
            }
            "0"
        },
        1 => {
            proof {
                reveal_strlit("1");
                assert("1"@ =~= seq!['1']);
            }
            "1"
        },
        2 => {
            proof {
                reveal_strlit("2");
                assert("2"@ =~= seq!['2']);
            }
            "2"
        },
        3 => {
            proof {
                reveal_strlit("3");
                assert("3"@ =~= seq!['3']);
            }
            "3"
        },
        4 => {
            proof {
                reveal_strlit("4");
                assert("4"@ =~= seq!['4']);
            }
            "4"
        },
        5 => {
            proof {
                reveal_strlit("5");
                assert("5"@ =~= seq!['5']);
            }
            "5"
        },
        6 => {
            proof {
                reveal_strlit("6");
                assert("6"@ =~= seq!['6']);
            }
            "6"
        },
        7 => {
            proof {
                reveal_strlit("7");
                assert("7"@ =~= seq!['7']);
            }
            "7"
        },
        8 => {
            proof {
                reveal_strlit("8");
                assert("8"@ =~= seq!['8']);
            }
            "8"
        },
        _ => {
            proof {
                reveal_strlit("9");
                assert("9"@ =~= seq!['9']);
            }
            "9"
        },
    }
}

/// One lowercase hexadecimal digit as text.
fn hex_digit(d: u8) -> (r: &'static str)
    requires
        d < 16,
    ensures
        r@ == seq![spec_hex_digit(d as int)],
{
    if d < 10 {
        dec_digit(d as u32)
    } else {
        match d {
            10 => {
                proof {
                    reveal_strlit("a");
                    assert("a"@ =~= seq!['a']);
                }
                "a"
            },
            11 => {
                proof {
                    reveal_strlit("b");
                    assert("b"@ =~= seq!['b']);
                }
                "b"
            },
            12 => {
                proof {
                    reveal_strlit("c");
                    assert("c"@ =~= seq!['c']);
                }
                "c"
            },
            13 => {
                proof {
                    reveal_strlit("d");
                    assert("d"@ =~= seq!['d']);
                }
                "d"
            },
            14 => {
                proof {
                    reveal_strlit("e");
                    assert("e"@ =~= seq!['e']);
                }
                "e"
            },
            _ => {
                proof {
                    reveal_strlit("f");
                    assert("f"@ =~= seq!['f']);
                }
                "f"
            },
        }
    }
}

/// The decimal rendering of a number, most significant digit first.
pub fn u32_dec(n: u32) -> (r: String)
    ensures
        r@ == spec_dec(n as int),
    decreases n,
{
    if n < 10 {
        String::from_str(dec_digit(n))
    } else {
        let mut s = u32_dec(n / 10);
        s.append(dec_digit(n % 10));
        proof {
            assert(spec_dec(n as int / 10).push(spec_dec_digit(n as int % 10)) =~= spec_dec(
                n as int / 10,
            ) + seq![spec_dec_digit(n as int % 10)]);
        }
        s
    }
}

/// The two-digit hexadecimal rendering of a byte, with the `0x` prefix.
pub fn u8_hex(n: u8) -> (r: String)
    ensures
        r@ == spec_hex2(n as int),
{
    proof {
        reveal_strlit("0x");
        assert("0x"@ =~= seq!['0', 'x']);
    }
    let mut s = String::from_str("0x");
    s.append(hex_digit(n / 16));
    s.append(hex_digit(n % 16));
    proof {
        assert(s@ =~= spec_hex2(n as int));
    }
    s
}

/// The uppercase form of one ASCII letter; any other character is kept.
pub open spec fn spec_to_upper(c: char) -> char {
    if 'a' <= c && c <= 'z' {
        ((c as u32) - 32) as char
    } else {
        c
    }
}

/// The camel-case recursion: underscores are dropped and capitalize the
/// following character.
pub open spec fn spec_camel(s: Seq<char>, cap: bool) -> Seq<char>
    decreases s.len(),
{
    if s.len() == 0 {
        Seq::<char>::empty()
    } else if s[0] == '_' {
        spec_camel(s.drop_first(), true)
    } else if cap {
        seq![spec_to_upper(s[0])] + spec_camel(s.drop_first(), false)
    } else {
        seq![s[0]] + spec_camel(s.drop_first(), false)
    }
}

/// The camel-case form of an identifier: underscores are dropped; the
/// first character and each character following an underscore are
/// uppercased.
pub open spec fn spec_camel_case(s: Seq<char>) -> Seq<char> {
    spec_camel(s, true)
}

/// Relies on `String::push`: it appends exactly the given character to the
/// end of the string.
#[verifier::external_body]
fn push_char(s: &mut String, c: char)
    ensures
        final(s)@ == old(s)@.push(c),
{
    s.push(c);
}

/// The uppercase form of one ASCII letter; any other character is kept.
fn to_upper(c: char) -> (r: char)
    ensures
        r == spec_to_upper(c),
{
    if c >= 'a' && c <= 'z' {
        ((c as u8) - 32) as char
    } else {
        c
    }
}

/// The camel-case form of an identifier, for emitted type names.
pub fn camel_case(s: &str) -> (r: String)
    ensures
        r@ == spec_camel_case(s@),
{
    let n = s.unicode_len();
    let mut out = String::new();
    let mut cap = true;
    let mut i: usize = 0;
    proof {
        assert(s@.skip(0) =~= s@);
        assert(Seq::<char>::empty() + spec_camel(s@, true) =~= spec_camel(s@, true));
    }
    while i < n
        invariant
            i <= n,
            n == s@.len(),
            out@ + spec_camel(s@.skip(i as int), cap) == spec_camel_case(s@),
        decreases n - i,
    {
        let c = s.get_char(i);
        proof {
            assert(s@.skip(i as int).drop_first() =~= s@.skip(i + 1));
            assert(s@.skip(i as int)[0] == s@[i as int]);
        }
        if c == '_' {
            cap = true;
        } else if cap {
            push_char(&mut out, to_upper(c));
            cap = false;
            proof {
                assert(out@ =~= (out@.subrange(0, out@.len() - 1)) + seq![spec_to_upper(c)]);
                assert((out@.subrange(0, out@.len() - 1) + seq![spec_to_upper(c)]) + spec_camel(
                    s@.skip(i + 1),
                    false,
                ) =~= out@.subrange(0, out@.len() - 1) + (seq![spec_to_upper(c)] + spec_camel(
                    s@.skip(i + 1),
                    false,
                )));
            }
        } else {
            push_char(&mut out, c);
            proof {
                assert(out@ =~= (out@.subrange(0, out@.len() - 1)) + seq![c]);
                assert((out@.subrange(0, out@.len() - 1) + seq![c]) + spec_camel(s@.skip(i + 1), false)
                    =~= out@.subrange(0, out@.len() - 1) + (seq![c] + spec_camel(
                    s@.skip(i + 1),
                    false,
                )));
            }
        }
        i += 1;
    }
    proof {
        assert(s@.skip(n as int) =~= Seq::<char>::empty());
        assert(out@ + Seq::<char>::empty() =~= out@);
    }
    out
}

/// The spaces that open a line at the given indentation level: four per
/// level.
pub open spec fn indent_spaces(n: int) -> Seq<char>
    decreases n,
{
    if n <= 0 {
        Seq::<char>::empty()
    } else {
        indent_spaces(n - 1) + "    "@
    }
}

/// One emitted line at an indentation level.
pub open spec fn line_at(lvl: int, s: Seq<char>) -> Seq<char> {
    indent_spaces(lvl) + s
}

/// One emitted documentation-comment line at an indentation level.
pub open spec fn doc_at(lvl: int, s: Seq<char>) -> Seq<char> {
    indent_spaces(lvl) + "/// "@ + s
}

/// The flat text of a line sequence: each line followed by a newline.
pub open spec fn join_lines(ls: Seq<Seq<char>>) -> Seq<char>
    decreases ls.len(),
{
    if ls.len() == 0 {
        Seq::<char>::empty()
    } else {
        join_lines(ls.drop_last()) + ls.last() + "\n"@
    }
}

/// A deterministic, append-only collector of generated source lines with
/// explicit scoped indentation.
#[derive(Debug)]
pub struct Formatter {
    lines: Vec<String>,
    indent: usize,
}

impl Formatter {
    /// The lines collected so far, without their trailing newlines.
    pub closed spec fn lines_view(&self) -> Seq<Seq<char>> {
        self.lines@.map_values(|s: String| s@)
    }

    /// The current indentation level.
    pub closed spec fn indent_level(&self) -> int {
        self.indent as int
    }

    /// An empty formatter at indentation level zero.
    pub fn new() -> (r: Self)
        ensures
            r.lines_view() == Seq::<Seq<char>>::empty(),
            r.indent_level() == 0,
    {
        let r = Formatter { lines: Vec::new(), indent: 0 };
        proof {
            assert(r.lines_view() =~= Seq::<Seq<char>>::empty());
        }
        r
    }

    /// Enter a brace-delimited block: one level deeper.
    pub fn indent_push(&mut self)
        requires
            old(self).indent_level() < 1000,
        ensures
            final(self).lines_view() == old(self).lines_view(),
            final(self).indent_level() == old(self).indent_level() + 1,
    {
        self.indent = self.indent + 1;
    }

    /// Leave a brace-delimited block: one level back. Popping at level zero
    /// is a mismatched scope, a programming error.
    pub fn indent_pop(&mut self)
        requires
            old(self).indent_level() > 0,
        ensures
            final(self).lines_view() == old(self).lines_view(),
            final(self).indent_level() == old(self).indent_level() - 1,
    {
        self.indent = self.indent - 1;
    }

    /// Append one line at the current indentation.
    pub fn line(&mut self, s: &str) -> (u: ())
        ensures
            final(self).lines_view() == old(self).lines_view().push(
                indent_spaces(old(self).indent_level()) + s@,
            ),
            final(self).indent_level() == old(self).indent_level(),
    {
        let mut t = String::new();
        let mut i: usize = 0;
        while i < self.indent
            invariant
                i <= self.indent,
                *self == *old(self),
                t@ == indent_spaces(i as int),
            decreases self.indent - i,
        {
            t.append("    ");
            i += 1;
        }
        t.append(s);
        let ghost tv = t@;
        let ghost before = self.lines@;
        self.lines.push(t);
        proof {
            assert(self.lines@.map_values(|x: String| x@) =~= before.map_values(|x: String| x@)
                .push(tv));
        }
    }

    /// Append one documentation-comment line at the current indentation.
    pub fn doc_comment(&mut self, s: &str) -> (u: ())
        ensures
            final(self).lines_view() == old(self).lines_view().push(
                indent_spaces(old(self).indent_level()) + "/// "@ + s@,
            ),
            final(self).indent_level() == old(self).indent_level(),
    {
        let d = String::from_str("/// ").concat(s);
        let ghost lvl = self.indent_level();
        self.line(d.as_str());
        proof {
            assert(indent_spaces(lvl) + d@ =~= indent_spaces(lvl) + "/// "@ + s@);
        }
    }

    /// The collected text in one flat string: every line followed by a
    /// newline.
    pub fn contents(&self) -> (r: String)
        ensures
            r@ == join_lines(self.lines_view()),
    {
        let n = self.lines.len();
        let mut acc = String::new();
        let mut i: usize = 0;
        while i < n
            invariant
                i <= n,
                n == self.lines@.len(),
                acc@ == join_lines(self.lines_view().take(i as int)),
            decreases n - i,
        {
            acc.append(self.lines[i].as_str());
            acc.append("\n");
            proof {
                assert(self.lines_view().take(i + 1).drop_last() =~= self.lines_view().take(
                    i as int,
                ));
                assert(self.lines_view().take(i + 1).last() == self.lines_view()[i as int]);
                assert(self.lines_view()[i as int] == self.lines@[i as int]@);
            }
            i += 1;
        }
        proof {
            assert(self.lines_view().take(n as int) =~= self.lines_view());
        }
        acc
    }
}

/// The outcome of a write-if-changed request.
#[derive(Clone, Copy, Debug, PartialEq, Eq, Structural)]
pub enum WriteOutcome {
    /// The file was missing or held different bytes: it was replaced.
    Written,
    /// The file already held exactly the new content: nothing was touched.
    Unchanged,
}

/// The write-if-changed contract as a state transition: from the current
/// file content (`None` when the file is missing) and the new content to
/// the file content afterwards and the reported outcome. The file is
/// replaced only when the content differs.
pub open spec fn write_if_changed_spec(file: Option<Seq<char>>, content: Seq<char>) -> (
    Option<Seq<char>>,
    WriteOutcome,
) {
    if file == Some(content) {
        (file, WriteOutcome::Unchanged)
    } else {
        (Some(content), WriteOutcome::Written)
    }
}

/// The pure decision at the heart of write-if-changed: whether the target,
/// whose current content is `existing`, must be replaced with `content`.
pub fn update_decision(existing: Option<&String>, content: &str) -> (r: WriteOutcome)
    ensures
        r == write_if_changed_spec(
            match existing {
                Some(e) => Some(e@),
                None => None::<Seq<char>>,
            },
            content@,
        ).1,
{
    match existing {
        Some(e) => {
            let c = String::from_str(content);
            if *e == c {
                WriteOutcome::Unchanged
            } else {
                WriteOutcome::Written
            }
        },
        None => WriteOutcome::Written,
    }
}

/// Write-if-changed is idempotent: once content has been written, writing
/// the same content again reports `Unchanged` and performs no further
/// mutation of the file.
pub proof fn lemma_write_if_changed_idempotent(file: Option<Seq<char>>, content: Seq<char>)
    ensures
        ({
            let (f1, o1) = write_if_changed_spec(file, content);
            let (f2, o2) = write_if_changed_spec(f1, content);
            f2 == f1 && o2 == WriteOutcome::Unchanged
        }),
{
}

} // verus!
