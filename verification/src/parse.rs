//! The wire shape of a move frame: two unsigned decimal coordinate
//! fields separated by exactly one comma, as in `3,4`.  Any other shape
//! (no comma, more than one comma, an empty field, a non-digit) is a
//! protocol violation and parses to `None`.
//!
//! Coordinate values are capped at `COORD_CAP` while they are read.
//! `COORD_CAP` is at least as large as either board dimension, so a
//! capped value is off the board exactly when the written value is, and
//! the accumulation can never overflow.

use vstd::prelude::*;
use vstd::slice::slice_index_get;
use vstd::string::StringSliceAdditionalSpecFns;

verus! {

/// The field separator of a move frame.
pub const COMMA: u8 = 44;

/// Coordinate values read from a frame are capped here.  It only
/// matters that this is no smaller than HEIGHT and WIDTH, so that a
/// capped coordinate lies on the board exactly when the written one
/// does.
pub const COORD_CAP: usize = 10;

/// Whether `b` is an ASCII decimal digit.
pub open spec fn is_digit(b: u8) -> bool {
    48 <= b <= 57
}

/// Whether every byte of `s` is an ASCII decimal digit.
pub open spec fn all_digits(s: Seq<u8>) -> bool {
    forall|i: int| 0 <= i < s.len() ==> is_digit(#[trigger] s[i])
}

/// The value of the decimal numeral `s` (meaningful when `all_digits(s)`).
pub open spec fn digits_val(s: Seq<u8>) -> int
    decreases s.len(),
{
    if s.len() == 0 {
        0
    } else {
        digits_val(s.drop_last()) * 10 + (s.last() - 48)
    }
}

/// Whether `i` is the position of the unique comma of a well-formed
/// move frame: one comma, a nonempty run of digits on either side.
pub open spec fn split_at_ok(s: Seq<u8>, i: int) -> bool {
    &&& 0 <= i < s.len()
    &&& s[i] == COMMA
    &&& forall|j: int| 0 <= j < s.len() && j != i ==> s[j] != COMMA
    &&& 1 <= i
    &&& i + 1 < s.len()
    &&& all_digits(s.subrange(0, i))
    &&& all_digits(s.subrange(i + 1, s.len() as int))
}

/// Whether `s` has the wire shape of a move frame.
pub open spec fn frame_well_formed(s: Seq<u8>) -> bool {
    exists|i: int| split_at_ok(s, i)
}

/// The position of the comma of a well-formed frame.
pub open spec fn comma_pos(s: Seq<u8>) -> int {
    choose|i: int| split_at_ok(s, i)
}

/// The row coordinate written in a well-formed frame.
pub open spec fn frame_x(s: Seq<u8>) -> int {
    digits_val(s.subrange(0, comma_pos(s)))
}

/// The column coordinate written in a well-formed frame.
pub open spec fn frame_y(s: Seq<u8>) -> int {
    digits_val(s.subrange(comma_pos(s) + 1, s.len() as int))
}

/// A coordinate value as the parser returns it: capped at COORD_CAP.
pub open spec fn cap_coord(v: int) -> usize {
    if v > COORD_CAP {
        COORD_CAP
    } else {
        v as usize
    }
}

/// What parsing a frame with byte content `s` yields.
pub open spec fn parse_spec(s: Seq<u8>) -> Option<(usize, usize)> {
    if frame_well_formed(s) {
        Some((cap_coord(frame_x(s)), cap_coord(frame_y(s))))
    } else {
        None
    }
}

/// A numeral of digits has a nonnegative value.
proof fn lemma_digits_val_nonneg(s: Seq<u8>)
    requires
        all_digits(s),
    ensures
        digits_val(s) >= 0,
    decreases s.len(),
{
    if s.len() > 0 {
        assert(all_digits(s.drop_last()));
        lemma_digits_val_nonneg(s.drop_last());
    }
}

/// Appending one digit multiplies the numeral's value by ten and adds
/// the digit.
proof fn lemma_digits_val_snoc(s: Seq<u8>, from: int, i: int)
    requires
        0 <= from <= i < s.len(),
    ensures
        digits_val(s.subrange(from, i + 1)) == digits_val(s.subrange(from, i)) * 10 + (s[i] - 48),
{
    let a = s.subrange(from, i + 1);
    let b = s.subrange(from, i);
    assert(a.drop_last() =~= b);
    assert(a.last() == s[i]);
}

/// Reads the decimal numeral in `b[from .. to]`, capping the value at
/// COORD_CAP; yields `None` exactly when some byte there is no digit.
fn parse_digits(b: &[u8], from: usize, to: usize) -> (r: Option<usize>)
    requires
        from <= to <= b@.len(),
    ensures
        all_digits(b@.subrange(from as int, to as int)) ==> r == Some(
            cap_coord(digits_val(b@.subrange(from as int, to as int)))),
        !all_digits(b@.subrange(from as int, to as int)) ==> r is None,
{
    let ghost whole = b@.subrange(from as int, to as int);
    let mut v: usize = 0;
    let mut i: usize = from;
    while i < to
        invariant
            from <= i <= to <= b@.len(),
            whole == b@.subrange(from as int, to as int),
            all_digits(b@.subrange(from as int, i as int)),
            v == cap_coord(digits_val(b@.subrange(from as int, i as int))),
            v <= COORD_CAP,
        decreases to - i,
    {
        let c = *slice_index_get(b, i);
        if c < 48 || c > 57 {
            assert(whole[i - from] == b@[i as int]);
            return None;
        }
        let d = (c - 48) as usize;
        proof {
            lemma_digits_val_snoc(b@, from as int, i as int);
            assert(b@.subrange(from as int, i as int).push(b@[i as int]) =~= b@.subrange(
                from as int, i + 1));
            lemma_digits_val_nonneg(b@.subrange(from as int, i as int));
            lemma_digits_val_nonneg(b@.subrange(from as int, i + 1));
        }
        if v >= COORD_CAP {
            v = COORD_CAP;
        } else {
            let w = v * 10 + d;
            v = if w > COORD_CAP {
                COORD_CAP
            } else {
                w
            };
        }
        i = i + 1;
    }
    assert(b@.subrange(from as int, i as int) =~= whole);
    Some(v)
}

/// Parses a move frame.  Yields the two coordinates (capped at
/// COORD_CAP) exactly when the text has the required shape, and `None`
/// for every other text.
pub fn parse_move(s: &str) -> (r: Option<(usize, usize)>)
    ensures
        r == parse_spec(s.spec_bytes()),
{
    let b: &[u8] = s.as_bytes();
    let n: usize = b.len();
    let mut ci: usize = n;
    let mut idx: usize = 0;
    while idx < n
        invariant
            b@ == s.spec_bytes(),
            n == b@.len(),
            idx <= n,
            ci <= n,
            ci == n ==> forall|j: int| 0 <= j < idx ==> b@[j] != COMMA,
            ci < n ==> {
                &&& ci < idx
                &&& b@[ci as int] == COMMA
                &&& forall|j: int| 0 <= j < idx && j != ci ==> b@[j] != COMMA
            },
        decreases n - idx,
    {
        if *slice_index_get(b, idx) == COMMA {
            if ci < n {
                proof {
                    assert forall|i: int| !split_at_ok(b@, i) by {
                        if split_at_ok(b@, i) {
                            if i == ci {
                                assert(b@[idx as int] != COMMA);
                            } else {
                                assert(b@[ci as int] != COMMA);
                            }
                        }
                    }
                }
                return None;
            }
            ci = idx;
        }
        idx = idx + 1;
    }
    if ci == n || ci == 0 || ci + 1 == n {
        proof {
            assert forall|i: int| !split_at_ok(b@, i) by {
                if split_at_ok(b@, i) {
                    assert(b@[i] == COMMA);
                }
            }
        }
        return None;
    }
    let x = match parse_digits(b, 0, ci) {
        Some(x) => x,
        None => {
            proof {
                assert forall|i: int| !split_at_ok(b@, i) by {
                    if split_at_ok(b@, i) {
                        assert(i == ci);
                    }
                }
            }
            return None;
        },
    };
    let y = match parse_digits(b, ci + 1, n) {
        Some(y) => y,
        None => {
            proof {
                assert forall|i: int| !split_at_ok(b@, i) by {
                    if split_at_ok(b@, i) {
                        assert(i == ci);
                    }
                }
            }
            return None;
        },
    };
    proof {
        assert(split_at_ok(b@, ci as int));
        assert(comma_pos(b@) == ci as int) by {
            let p = comma_pos(b@);
            assert(split_at_ok(b@, p));
            if p != ci {
                assert(b@[p] != COMMA);
            }
        }
    }
    Some((x, y))
}

} // verus!
