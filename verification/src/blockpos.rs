//! Block positions and their `x, y, z` text form (used in config files and options).

use vstd::prelude::*;
use vstd::string::*;
use crate::text::{dec, dec_signed, digit_char, digits_value, all_digits, is_digit, push_i32, parse_i32, spec_parse_i32, push_char};

verus! {

/// The integer coordinates of a block.
#[derive(Debug, Copy, Clone, PartialEq, Eq, Structural, Hash)]
pub struct BlockPos {
    pub x: i32,
    pub y: i32,
    pub z: i32,
}

impl BlockPos {
    /// The block at the given coordinates.
    pub fn new(x: i32, y: i32, z: i32) -> (r: BlockPos)
        ensures
            r == (BlockPos { x, y, z }),
    {
        BlockPos { x, y, z }
    }
}

/// A block position read from or written as text.
#[derive(Debug, Copy, Clone, PartialEq, Eq, Structural, Hash)]
pub struct BlockPosString(pub BlockPos);

/// Why a block position text was rejected.
#[derive(Debug, Copy, Clone, PartialEq, Eq, Structural)]
pub enum BlockPosParseError {
    /// The text did not hold exactly three comma separated parts.
    WrongPartCount,
    /// The part with this index (0, 1 or 2) is not a 32-bit integer.
    InvalidNumber(usize),
}

/// The text without space characters (`replace(" ", "")`).
pub open spec fn without_spaces(s: Seq<char>) -> Seq<char>
    decreases s.len(),
{
    if s.len() == 0 {
        s
    } else {
        let rest = without_spaces(s.drop_last());
        if s.last() == ' ' { rest } else { rest.push(s.last()) }
    }
}

/// The parts of a text between commas (`split(',')`): one more part than commas.
pub open spec fn split_commas(s: Seq<char>) -> Seq<Seq<char>>
    decreases s.len(),
{
    if s.len() == 0 {
        seq![Seq::<char>::empty()]
    } else {
        let parts = split_commas(s.drop_last());
        if s.last() == ',' {
            parts.push(Seq::empty())
        } else {
            parts.update(parts.len() - 1, parts.last().push(s.last()))
        }
    }
}

/// The block position a text stands for: spaces are ignored, and the three comma
/// separated parts must be 32-bit integers.
pub open spec fn spec_parse_block_pos(s: Seq<char>) -> Result<BlockPos, BlockPosParseError> {
    let parts = split_commas(without_spaces(s));
    if parts.len() != 3 {
        Err(BlockPosParseError::WrongPartCount)
    } else if spec_parse_i32(parts[0]) is None {
        Err(BlockPosParseError::InvalidNumber(0))
    } else if spec_parse_i32(parts[1]) is None {
        Err(BlockPosParseError::InvalidNumber(1))
    } else if spec_parse_i32(parts[2]) is None {
        Err(BlockPosParseError::InvalidNumber(2))
    } else {
        Ok(BlockPos {
            x: spec_parse_i32(parts[0]).unwrap(),
            y: spec_parse_i32(parts[1]).unwrap(),
            z: spec_parse_i32(parts[2]).unwrap(),
        })
    }
}

/// The text `x, y, z` of a block position.
pub open spec fn spec_block_pos_text(p: BlockPos) -> Seq<char> {
    dec_signed(p.x as int) + ", "@ + dec_signed(p.y as int) + ", "@ + dec_signed(p.z as int)
}

impl BlockPosString {
    /// Reads `x, y, z` (spaces anywhere are ignored).
    pub fn from_str(s: &str) -> (r: Result<BlockPosString, BlockPosParseError>)
        ensures
            match spec_parse_block_pos(s@) {
                Ok(p) => r == Ok::<BlockPosString, BlockPosParseError>(BlockPosString(p)),
                Err(e) => r == Err::<BlockPosString, BlockPosParseError>(e),
            },
    {
        let n = s.unicode_len();
        let mut parts: Vec<String> = Vec::new();
        let mut current = String::new();
        let mut i: usize = 0;
        while i < n
            invariant
                n == s@.len(),
                i <= n,
                parts@.len() <= i,
                parts@.map_values(|p: String| p@).push(current@) == split_commas(
                    without_spaces(s@.subrange(0, i as int)),
                ),
            decreases n - i,
        {
            let c = s.get_char(i);
            let ghost prev = s@.subrange(0, i as int);
            let ghost next = s@.subrange(0, i as int + 1);
            proof {
                assert(next.drop_last() =~= prev);
                assert(next.last() == c);
                if c != ' ' {
                    assert(without_spaces(next) == without_spaces(prev).push(c));
                    assert(without_spaces(next).drop_last() =~= without_spaces(prev));
                }
            }
            if c == ',' {
                let ghost old_parts = parts@;
                let done = current;
                parts.push(done);
                current = String::new();
                proof {
                    assert(parts@.map_values(|p: String| p@) =~= old_parts.map_values(|p: String| p@).push(done@));
                    assert(parts@.map_values(|p: String| p@).push(current@) =~= split_commas(without_spaces(next)));
                }
            } else if c != ' ' {
                let ghost old_current = current@;
                push_char(&mut current, c);
                proof {
                    let before = parts@.map_values(|p: String| p@).push(old_current);
                    assert(parts@.map_values(|p: String| p@).push(current@) =~= before.update(
                        before.len() - 1, before.last().push(c)));
                }
            } else {
                proof {
                    assert(without_spaces(next) == without_spaces(prev));
                }
            }
            i = i + 1;
        }
        proof {
            assert(s@.subrange(0, n as int) =~= s@);
        }
        if parts.len() != 2 {
            return Err(BlockPosParseError::WrongPartCount);
        }
        let x = match parse_i32(parts[0].as_str()) {
            Some(v) => v,
            None => return Err(BlockPosParseError::InvalidNumber(0)),
        };
        let y = match parse_i32(parts[1].as_str()) {
            Some(v) => v,
            None => return Err(BlockPosParseError::InvalidNumber(1)),
        };
        let z = match parse_i32(current.as_str()) {
            Some(v) => v,
            None => return Err(BlockPosParseError::InvalidNumber(2)),
        };
        Ok(BlockPosString(BlockPos { x, y, z }))
    }

    /// The text `x, y, z` of this position (as config files store it).
    pub fn to_text(&self) -> (r: String)
        ensures
            r@ == spec_block_pos_text(self.0),
    {
        proof {
            reveal_strlit(", ");
        }
        let mut r = String::new();
        push_i32(&mut r, self.0.x);
        r.append(", ");
        push_i32(&mut r, self.0.y);
        r.append(", ");
        push_i32(&mut r, self.0.z);
        r
    }
}

proof fn lemma_digit_char(d: nat)
    requires
        d < 10,
    ensures
        is_digit(digit_char(d)),
        digit_char(d) as int - '0' as int == d,
{
}

/// The decimal text of a number is digits only, and reads back as the number.
proof fn lemma_dec_reads_back(n: nat)
    ensures
        dec(n).len() > 0,
        all_digits(dec(n)),
        digits_value(dec(n)) == n,
    decreases n,
{
    if n < 10 {
        lemma_digit_char(n);
        assert(dec(n).drop_last() =~= Seq::<char>::empty());
        assert(digits_value(dec(n)) == 10 * digits_value(Seq::<char>::empty()) + (digit_char(n) as int - '0' as int));
    } else {
        lemma_dec_reads_back(n / 10);
        lemma_digit_char(n % 10);
        assert(dec(n).drop_last() =~= dec(n / 10));
        assert(dec(n).last() == digit_char(n % 10));
        assert(digits_value(dec(n)) == 10 * digits_value(dec(n / 10)) + (digit_char(n % 10) as int - '0' as int));
        assert(10 * (n / 10) + n % 10 == n);
        assert forall|i: int| 0 <= i < dec(n).len() implies is_digit(#[trigger] dec(n)[i]) by {
            if i < dec(n / 10).len() {
                assert(dec(n)[i] == dec(n / 10)[i]);
            }
        }
    }
}

/// The signed decimal text of a 32-bit number parses back to it.
proof fn lemma_dec_signed_parses(v: i32)
    ensures
        spec_parse_i32(dec_signed(v as int)) == Some(v),
        forall|i: int| 0 <= i < dec_signed(v as int).len() ==> {
            let c = #[trigger] dec_signed(v as int)[i];
            c != ' ' && c != ','
        },
{
    if v < 0 {
        let m: nat = (-(v as int)) as nat;
        lemma_dec_reads_back(m);
        let s = dec_signed(v as int);
        assert(s == seq!['-'] + dec(m));
        assert(s.drop_first() =~= dec(m));
        assert forall|i: int| 0 <= i < s.len() implies { let c = #[trigger] s[i]; c != ' ' && c != ',' } by {
            if i > 0 {
                assert(s[i] == dec(m)[i - 1]);
                assert(is_digit(dec(m)[i - 1]));
            }
        }
    } else {
        lemma_dec_reads_back(v as nat);
        let s = dec_signed(v as int);
        assert(is_digit(s[0]));
        assert forall|i: int| 0 <= i < s.len() implies { let c = #[trigger] s[i]; c != ' ' && c != ',' } by {
            assert(is_digit(s[i]));
        }
    }
}

proof fn lemma_without_spaces_append(x: Seq<char>, y: Seq<char>)
    ensures
        without_spaces(x + y) == without_spaces(x) + without_spaces(y),
    decreases y.len(),
{
    if y.len() == 0 {
        assert(x + y =~= x);
        assert(without_spaces(x) + without_spaces(y) =~= without_spaces(x));
    } else {
        lemma_without_spaces_append(x, y.drop_last());
        assert((x + y).drop_last() =~= x + y.drop_last());
        if y.last() == ' ' {
        } else {
            assert(without_spaces(x) + without_spaces(y) =~= (without_spaces(x) + without_spaces(y.drop_last())).push(y.last()));
        }
    }
}

proof fn lemma_without_spaces_free(y: Seq<char>)
    requires
        forall|i: int| 0 <= i < y.len() ==> #[trigger] y[i] != ' ',
    ensures
        without_spaces(y) == y,
    decreases y.len(),
{
    if y.len() > 0 {
        lemma_without_spaces_free(y.drop_last());
        assert(y.drop_last().push(y.last()) =~= y);
    }
}

proof fn lemma_split_commas_free(y: Seq<char>)
    requires
        forall|i: int| 0 <= i < y.len() ==> #[trigger] y[i] != ',',
    ensures
        split_commas(y) == seq![y],
    decreases y.len(),
{
    if y.len() == 0 {
        assert(y =~= Seq::<char>::empty());
        assert(split_commas(y) =~= seq![y]);
    } else {
        lemma_split_commas_free(y.drop_last());
        assert(y[y.len() - 1] != ',');
        assert(forall|i: int| 0 <= i < y.drop_last().len() ==> #[trigger] y.drop_last()[i] == y[i]);
        assert(y.drop_last().push(y.last()) =~= y);
        let parts = split_commas(y.drop_last());
        assert(parts == seq![y.drop_last()]);
        assert(split_commas(y) == parts.update(parts.len() - 1, parts.last().push(y.last())));
        assert(parts.update(0, y.drop_last().push(y.last())) =~= seq![y]);
    }
}

proof fn lemma_split_commas_after(x: Seq<char>, y: Seq<char>)
    requires
        forall|i: int| 0 <= i < y.len() ==> #[trigger] y[i] != ',',
    ensures
        split_commas(x + seq![','] + y) == split_commas(x).push(y),
    decreases y.len(),
{
    let s = x + seq![','] + y;
    if y.len() == 0 {
        assert(s.drop_last() =~= x);
        assert(y =~= Seq::<char>::empty());
        assert(s.last() == ',');
        assert(split_commas(s) =~= split_commas(x).push(y));
    } else {
        assert(forall|i: int| 0 <= i < y.drop_last().len() ==> #[trigger] y.drop_last()[i] == y[i]);
        lemma_split_commas_after(x, y.drop_last());
        assert(y[y.len() - 1] != ',');
        assert(s.last() == y.last());
        assert(s.drop_last() =~= x + seq![','] + y.drop_last());
        assert(y.drop_last().push(y.last()) =~= y);
        assert(split_commas(s) =~= split_commas(x).push(y));
    }
}

/// The text of a block position reads back as the same position.
pub proof fn law_block_pos_text_round_trip(p: BlockPos)
    ensures
        spec_parse_block_pos(spec_block_pos_text(p)) == Ok::<BlockPos, BlockPosParseError>(p),
{
    reveal_strlit(", ");
    let a = dec_signed(p.x as int);
    let b = dec_signed(p.y as int);
    let c = dec_signed(p.z as int);
    lemma_dec_signed_parses(p.x);
    lemma_dec_signed_parses(p.y);
    lemma_dec_signed_parses(p.z);
    let sep = ", "@;
    let t = a + sep + b + sep + c;
    assert(spec_block_pos_text(p) == t);
    lemma_without_spaces_append(a + sep + b + sep, c);
    lemma_without_spaces_append(a + sep + b, sep);
    lemma_without_spaces_append(a + sep, b);
    lemma_without_spaces_append(a, sep);
    lemma_without_spaces_free(a);
    lemma_without_spaces_free(b);
    lemma_without_spaces_free(c);
    assert(sep =~= seq![','].push(' '));
    assert(seq![','].drop_last() =~= Seq::<char>::empty());
    assert(without_spaces(Seq::<char>::empty()) =~= Seq::<char>::empty());
    assert(seq![','].last() == ',');
    assert(without_spaces(seq![',']) =~= seq![',']);
    assert(sep.drop_last() =~= seq![',']);
    assert(sep.last() == ' ');
    assert(without_spaces(sep) =~= seq![',']);
    let w = a + seq![','] + b + seq![','] + c;
    assert(without_spaces(t) =~= w);
    lemma_split_commas_free(a);
    lemma_split_commas_after(a, b);
    lemma_split_commas_after(a + seq![','] + b, c);
    assert(split_commas(w) =~= seq![a, b, c]);
}

} // verus!
