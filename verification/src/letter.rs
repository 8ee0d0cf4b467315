use vstd::prelude::*;
use vstd::string::StrSliceExecFns;

verus! {

/// Whether `c` is one of the characters that the letter glyph table holds.
pub open spec fn is_glyph_char(c: char) -> bool {
    ||| '0' <= c <= '9'
    ||| 'A' <= c <= 'Z'
    ||| 'a' <= c <= 'z'
    ||| c == '.'
    ||| c == '-'
    ||| c == '+'
    ||| c == '_'
    ||| c == '!'
    ||| c == '/'
}

/// The index of the glyph for `c`: digits first, then letters (case-insensitive),
/// then the punctuation marks.
pub open spec fn glyph_index(c: char) -> int {
    if '0' <= c <= '9' {
        c as int - '0' as int
    } else if 'A' <= c <= 'Z' {
        c as int - 'A' as int + 10
    } else if 'a' <= c <= 'z' {
        c as int - 'a' as int + 10
    } else if c == '.' {
        36
    } else if c == '-' {
        38
    } else if c == '+' {
        39
    } else if c == '_' {
        37
    } else if c == '!' {
        42
    } else {
        43
    }
}

/// The number of glyphs in the letter table.
pub const LETTER_NUM: usize = 44;
/// The glyph of the colon between minutes and seconds.
pub const GLYPH_COLON: usize = 40;
/// The glyph of the quote between seconds and hundredths.
pub const GLYPH_QUOTE: usize = 41;

/// The way a line of text runs on screen.
#[derive(PartialEq, Eq, Clone, Copy, Debug, Structural)]
pub enum Direction {
    ToRight,
    ToDown,
    ToLeft,
    ToUp,
}

/// Whether `c` can be written: a glyph or a space.
pub open spec fn is_writable_char(c: char) -> bool {
    c == ' ' || is_glyph_char(c)
}

/// The glyphs of the decimal digits of `n`, least significant first, continued with
/// zeros until at least `digit` glyphs are written; at least one glyph in any case.
pub open spec fn num_glyphs_spec(n: nat, digit: int) -> Seq<usize>
    decreases n + if digit > 0 { digit } else { 0 },
{
    let rest = if n / 10 == 0 && digit - 1 <= 0 {
        Seq::empty()
    } else {
        num_glyphs_spec(n / 10, digit - 1)
    };
    seq![(n % 10) as usize] + rest
}

/// The glyphs of a time in milliseconds, least significant first: digit `i` of the
/// clock is taken modulo 6 at position 4 (tens of seconds) and modulo 10 elsewhere,
/// a quote follows position 3 and a colon position 5, and writing stops once the
/// remaining value is zero or seven positions are written.
pub open spec fn time_glyphs_spec(n: nat, i: nat) -> Seq<(usize, Option<usize>)>
    decreases 7 - i,
{
    if i >= 7 {
        Seq::empty()
    } else {
        let base: nat = if i == 4 { 6 } else { 10 };
        let sep = if i == 3 {
            Some(GLYPH_QUOTE)
        } else if i == 5 {
            Some(GLYPH_COLON)
        } else {
            None
        };
        let rest = if n / base == 0 {
            Seq::empty()
        } else {
            time_glyphs_spec(n / base, i + 1)
        };
        seq![((n % base) as usize, sep)] + rest
    }
}

proof fn lemma_num_glyphs_nonpositive(n: nat, d1: int, d2: int)
    requires
        d1 <= 0,
        d2 <= 0,
    ensures
        num_glyphs_spec(n, d1) == num_glyphs_spec(n, d2),
    decreases n,
{
    if n / 10 != 0 {
        lemma_num_glyphs_nonpositive(n / 10, d1 - 1, d2 - 1);
    }
}

/// The glyph table and the layout of text, numbers and times in glyphs.
pub struct Letter {}

impl Letter {
    /// Maps a character to the index of its glyph.
    pub fn convert_char_to_int(c: char) -> (r: usize)
        requires
            is_glyph_char(c),
        ensures
            r == glyph_index(c),
    {
        match c {
            '0'..='9' => (c as u32 - '0' as u32) as usize,
            'A'..='Z' => (c as u32 - 'A' as u32 + 10) as usize,
            'a'..='z' => (c as u32 - 'a' as u32 + 10) as usize,
            '.' => 36,
            '-' => 38,
            '+' => 39,
            '_' => 37,
            '!' => 42,
            _ => 43,
        }
    }

    /// The glyphs of a string, one per character; a space has none.
    pub fn string_glyphs(s: &str) -> (r: Vec<Option<usize>>)
        requires
            forall|i: int| 0 <= i < s@.len() ==> is_writable_char(#[trigger] s@[i]),
        ensures
            r@.len() == s@.len(),
            forall|i: int|
                0 <= i < s@.len() ==> #[trigger] r@[i] == if s@[i] == ' ' {
                    None
                } else {
                    Some(glyph_index(s@[i]) as usize)
                },
    {
        let len = s.unicode_len();
        let mut r: Vec<Option<usize>> = Vec::new();
        let mut i: usize = 0;
        while i < len
            invariant
                i <= len,
                len == s@.len(),
                r@.len() == i,
                forall|i: int| 0 <= i < s@.len() ==> is_writable_char(#[trigger] s@[i]),
                forall|j: int|
                    0 <= j < i ==> #[trigger] r@[j] == if s@[j] == ' ' {
                        None
                    } else {
                        Some(glyph_index(s@[j]) as usize)
                    },
            decreases len - i,
        {
            let c = s.get_char(i);
            if c == ' ' {
                r.push(None);
            } else {
                r.push(Some(Letter::convert_char_to_int(c)));
            }
            i = i + 1;
        }
        r
    }

    /// The glyphs of a number, least significant digit first, padded with zeros to
    /// at least `dg` digits.
    pub fn num_glyphs(num: usize, dg: isize) -> (r: Vec<usize>)
        ensures
            r@ == num_glyphs_spec(num as nat, dg as int),
    {
        let mut r: Vec<usize> = Vec::new();
        let mut n = num;
        let mut digit: isize = if dg > 0 {
            dg
        } else {
            0
        };
        proof {
            if dg <= 0 {
                lemma_num_glyphs_nonpositive(num as nat, dg as int, 0);
            }
        }
        loop
            invariant_except_break
                r@ + num_glyphs_spec(n as nat, digit as int) == num_glyphs_spec(
                    num as nat,
                    dg as int,
                ),
                digit >= 0,
            ensures
                r@ == num_glyphs_spec(num as nat, dg as int),
            decreases n + digit,
        {
            let ghost before = r@;
            let ghost n_old = n as nat;
            let ghost d_old = digit as int;
            r.push(n % 10);
            n = n / 10;
            if digit > 0 {
                digit = digit - 1;
            }
            proof {
                if d_old == 0 {
                    lemma_num_glyphs_nonpositive(n as nat, -1, 0);
                }
            }
            if n == 0 && digit <= 0 {
                assert(r@ =~= before + num_glyphs_spec(n_old, d_old));
                break;
            }
            assert(r@ + num_glyphs_spec(n as nat, digit as int) =~= before + num_glyphs_spec(
                n_old,
                d_old,
            ));
        }
        r
    }

    /// The glyphs of a time in milliseconds, least significant first, each with the
    /// separator glyph that follows it; a negative time is written as zero.
    pub fn time_glyphs(time: isize) -> (r: Vec<(usize, Option<usize>)>)
        ensures
            r@ == time_glyphs_spec(if time >= 0 { time as nat } else { 0 }, 0),
    {
        let mut n: usize = if time >= 0 {
            time as usize
        } else {
            0
        };
        let ghost n0: nat = n as nat;
        let mut r: Vec<(usize, Option<usize>)> = Vec::new();
        let mut i: usize = 0;
        while i < 7
            invariant_except_break
                i <= 7,
                r@ + time_glyphs_spec(n as nat, i as nat) == time_glyphs_spec(n0, 0),
                i > 0 ==> n > 0,
            ensures
                r@ == time_glyphs_spec(n0, 0),
            decreases 7 - i,
        {
            let base: usize = if i == 4 {
                6
            } else {
                10
            };
            let sep = if i == 3 {
                Some(GLYPH_QUOTE)
            } else if i == 5 {
                Some(GLYPH_COLON)
            } else {
                None
            };
            let ghost before = r@;
            r.push((n % base, sep));
            let ghost n_prev = n;
            n = n / base;
            proof {
                assert(r@ =~= before + seq![(n_prev % base, sep)]);
            }
            if n == 0 {
                proof {
                    assert(r@ =~= before + time_glyphs_spec(n_prev as nat, i as nat));
                }
                break;
            }
            i = i + 1;
            proof {
                assert(r@ + time_glyphs_spec(n as nat, i as nat) =~= before + time_glyphs_spec(
                    n_prev as nat,
                    (i - 1) as nat,
                ));
            }
        }
        r
    }
}

} // verus!
