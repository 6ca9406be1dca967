//! The six-dot Braille cell.

use vstd::prelude::*;

use crate::chars::{char_from_code, push_char};

verus! {

/// Mask value that stands for a line break rather than a cell.
pub const NEWLINE_MASK: u8 = 64;

/// One six-dot Braille cell, or the line-break sentinel.
///
/// Bit `i` of the mask raises dot `i + 1`; a cell's mask lies in `0..=63`,
/// and [`NEWLINE_MASK`] marks the sentinel.
#[derive(Clone, Copy, Debug, PartialEq, Eq, Structural)]
pub struct BraillePattern {
    mask: u8,
}

/// Powers of ten for the six decimal places of a dot number.
pub open spec fn place_value(k: int) -> int {
    if k == 0 {
        1
    } else if k == 1 {
        10
    } else if k == 2 {
        100
    } else if k == 3 {
        1000
    } else if k == 4 {
        10000
    } else {
        100000
    }
}

/// Decimal digit `k` of `n`, counted from the least significant place.
pub open spec fn decimal_digit(n: int, k: int) -> int {
    (n / place_value(k)) % 10
}

/// The mask bit that raises dot `d` (none for the digit 0).
pub open spec fn dot_bit(d: int) -> int {
    if d == 1 {
        1
    } else if d == 2 {
        2
    } else if d == 3 {
        4
    } else if d == 4 {
        8
    } else if d == 5 {
        16
    } else if d == 6 {
        32
    } else {
        0
    }
}

/// Digit `k` is a dot, and digit `k + 1` is either absent (0) or a smaller dot.
pub open spec fn ordered_place(n: int, k: int) -> bool {
    let lo = decimal_digit(n, k);
    let hi = decimal_digit(n, k + 1);
    &&& 0 <= lo <= 6
    &&& (hi == 0 || (lo != 0 && hi < lo))
}

/// `n` names a set of dots by its decimal digits: the dots in strictly
/// ascending order (146 is dots 1, 4 and 6), or 0 for the empty cell.
pub open spec fn is_dot_number(n: int) -> bool {
    &&& 0 <= n < 1000000
    &&& ordered_place(n, 0)
    &&& ordered_place(n, 1)
    &&& ordered_place(n, 2)
    &&& ordered_place(n, 3)
    &&& ordered_place(n, 4)
}

/// The mask of the cell that a dot number names.
pub open spec fn dot_number_mask(n: int) -> int {
    dot_bit(decimal_digit(n, 0)) + dot_bit(decimal_digit(n, 1)) + dot_bit(decimal_digit(n, 2))
        + dot_bit(decimal_digit(n, 3)) + dot_bit(decimal_digit(n, 4)) + dot_bit(
        decimal_digit(n, 5),
    )
}

/// Whether dot `d` (1 to 6) is raised in `mask`.
pub open spec fn mask_has_dot(mask: u8, d: int) -> bool {
    1 <= d <= 6 && (mask & (dot_bit(d) as u8)) != 0
}

/// The character of the digit `d`, for `d` in 1 to 6.
pub open spec fn digit_char(d: int) -> char {
    if d == 1 {
        '1'
    } else if d == 2 {
        '2'
    } else if d == 3 {
        '3'
    } else if d == 4 {
        '4'
    } else if d == 5 {
        '5'
    } else {
        '6'
    }
}

/// The digits of the raised dots among dots 1 to `k`, in ascending order.
pub open spec fn dot_digits_upto(mask: u8, k: int) -> Seq<char>
    decreases k,
{
    if k <= 0 {
        Seq::empty()
    } else if mask_has_dot(mask, k) {
        dot_digits_upto(mask, k - 1).push(digit_char(k))
    } else {
        dot_digits_upto(mask, k - 1)
    }
}

impl BraillePattern {
    #[verifier::type_invariant]
    spec fn inv(self) -> bool {
        self.mask <= NEWLINE_MASK
    }

    /// The mask lies in `0..=63`, or is [`NEWLINE_MASK`]: what every
    /// value that the exec functions hand out satisfies.
    pub closed spec fn valid(self) -> bool {
        self.mask <= NEWLINE_MASK
    }

    /// The mask: `0..=63` for a cell, [`NEWLINE_MASK`] for the sentinel.
    pub closed spec fn mask(self) -> u8 {
        self.mask
    }

    pub closed spec fn is_newline(self) -> bool {
        self.mask == NEWLINE_MASK
    }

    /// The cell that the dot number `n` names.
    pub closed spec fn cell(n: int) -> BraillePattern {
        BraillePattern { mask: dot_number_mask(n) as u8 }
    }

    /// Unicode code point of the cell (U+2800 block), or of the line feed.
    pub open spec fn codepoint(self) -> u32 {
        if self.is_newline() {
            0x0A
        } else {
            (0x2800 + self.mask()) as u32
        }
    }

    /// Whether dot 3 or dot 6 is raised.
    pub open spec fn lower_dots(self) -> bool {
        !self.is_newline() && (mask_has_dot(self.mask(), 3) || mask_has_dot(self.mask(), 6))
    }

    /// The cell with the dots of both cells raised.
    pub closed spec fn spec_union(self, other: BraillePattern) -> BraillePattern {
        BraillePattern { mask: self.mask | other.mask }
    }

    /// Builds the cell named by a dot number (146 raises dots 1, 4 and 6).
    pub fn from_dots(dots: usize) -> (r: BraillePattern)
        requires
            is_dot_number(dots as int),
        ensures
            r == Self::cell(dots as int),
            r.mask() == dot_number_mask(dots as int),
            !r.is_newline(),
            r.valid(),
    {
        let d0 = exec_dot_bit(dots % 10);
        let d1 = exec_dot_bit((dots / 10) % 10);
        let d2 = exec_dot_bit((dots / 100) % 10);
        let d3 = exec_dot_bit((dots / 1000) % 10);
        let d4 = exec_dot_bit((dots / 10000) % 10);
        let d5 = exec_dot_bit((dots / 100000) % 10);
        BraillePattern { mask: d0 + d1 + d2 + d3 + d4 + d5 }
    }

    /// The cell with the dots of both cells raised.
    pub fn union(self, other: BraillePattern) -> (r: BraillePattern)
        requires
            !self.is_newline(),
            !other.is_newline(),
        ensures
            r == self.spec_union(other),
            r == other.spec_union(self),
            r.mask() == self.mask() | other.mask(),
            self.spec_union(self) == self,
            r.valid(),
            !r.is_newline(),
    {
        proof {
            use_type_invariant(&self);
            use_type_invariant(&other);
        }
        let a = self.mask;
        let b = other.mask;
        let m = a | b;
        assert(a | a == a) by (bit_vector);
        assert(a | b == b | a) by (bit_vector);
        assert(m <= 63) by (bit_vector)
            requires
                m == a | b,
                a <= 63,
                b <= 63,
        ;
        BraillePattern { mask: m }
    }

    /// Whether dot 3 or dot 6 is raised; used to tell a letter from a digit.
    pub fn has_lower_dots(&self) -> (r: bool)
        ensures
            r == self.lower_dots(),
            self.valid(),
    {
        proof {
            use_type_invariant(self);
        }
        let m = self.mask;
        assert(((m & 36) != 0) == (m != 64 && ((m & 4) != 0 || (m & 32) != 0))) by (bit_vector)
            requires
                m <= 64,
        ;
        (self.mask & 36) != 0
    }

    /// The character that displays the cell: U+2800 plus the mask, or a line
    /// feed for the sentinel.
    pub fn to_unicode(&self) -> (r: char)
        ensures
            r as u32 == self.codepoint(),
            !self.is_newline() ==> 0x2800 <= r as u32 <= 0x283F,
            self.valid(),
    {
        proof {
            use_type_invariant(self);
        }
        if self.mask == NEWLINE_MASK {
            '\n'
        } else {
            match char_from_code(0x2800 + self.mask as u32) {
                Some(c) => c,
                None => '\u{2800}',
            }
        }
    }

    /// The raised dots as ascending decimal digits ("146"); empty for the
    /// empty cell and for the sentinel.
    pub fn to_dots(&self) -> (r: String)
        ensures
            r@ == dot_digits_upto(self.mask(), 6),
            self.valid(),
    {
        proof {
            use_type_invariant(self);
        }
        let mut res = String::new();
        let mut i: u8 = 1;
        while i <= 6
            invariant
                1 <= i <= 7,
                res@ == dot_digits_upto(self.mask(), i - 1),
            decreases 7 - i,
        {
            let bit = exec_dot_bit(i as usize);
            if (self.mask & bit) != 0 {
                push_char(&mut res, exec_digit_char(i));
            }
            i = i + 1;
        }
        res
    }

    /// The line-break sentinel.
    pub fn newline() -> (r: BraillePattern)
        ensures
            r.is_newline(),
            r.valid(),
    {
        BraillePattern { mask: NEWLINE_MASK }
    }
}

fn exec_digit_char(d: u8) -> (r: char)
    requires
        1 <= d <= 6,
    ensures
        r == digit_char(d as int),
{
    if d == 1 {
        '1'
    } else if d == 2 {
        '2'
    } else if d == 3 {
        '3'
    } else if d == 4 {
        '4'
    } else if d == 5 {
        '5'
    } else {
        '6'
    }
}

fn exec_dot_bit(d: usize) -> (r: u8)
    ensures
        r as int == dot_bit(d as int),
{
    if d == 1 {
        1
    } else if d == 2 {
        2
    } else if d == 3 {
        4
    } else if d == 4 {
        8
    } else if d == 5 {
        16
    } else if d == 6 {
        32
    } else {
        0
    }
}

/// Union of dots is idempotent and commutative on cells.
pub proof fn lemma_union_laws(a: BraillePattern, b: BraillePattern)
    requires
        a.valid(),
        b.valid(),
        !a.is_newline(),
        !b.is_newline(),
    ensures
        a.spec_union(a) == a,
        a.spec_union(b) == b.spec_union(a),
        a.spec_union(b).mask() == a.mask() | b.mask(),
        !a.spec_union(b).is_newline(),
        a.spec_union(b).valid(),
{
    let x = a.mask;
    let y = b.mask;
    assert(x | x == x) by (bit_vector);
    assert(x | y == y | x) by (bit_vector);
    assert((x | y) < 64) by (bit_vector)
        requires
            x < 64,
            y < 64,
    ;
}

/// The display character of a cell lies in the Braille block U+2800 to
/// U+283F.
pub proof fn lemma_codepoint_range(a: BraillePattern)
    requires
        a.valid(),
        !a.is_newline(),
    ensures
        0x2800 <= a.codepoint() <= 0x283F,
{
}

/// The decimal digits of `n`, most significant first (none for 0).
pub open spec fn decimal_text(n: int) -> Seq<char>
    decreases n,
{
    if n <= 0 {
        Seq::empty()
    } else {
        decimal_text(n / 10).push(digit_char(n % 10))
    }
}

/// The digits of `n`, read from the right, are dots that strictly decrease,
/// all below `b`.
spec fn descending_dots(n: int, b: int) -> bool
    decreases n,
{
    if n <= 0 {
        n == 0
    } else {
        1 <= n % 10 < b && descending_dots(n / 10, n % 10)
    }
}

spec fn digits_mask(n: int) -> int
    decreases n,
{
    if n <= 0 {
        0
    } else {
        digits_mask(n / 10) + dot_bit(n % 10)
    }
}

proof fn lemma_dot_number_digits(n: int)
    requires
        is_dot_number(n),
    ensures
        descending_dots(n, 7),
        digits_mask(n) == dot_number_mask(n),
{
    reveal_with_fuel(descending_dots, 7);
    reveal_with_fuel(digits_mask, 7);
    assert(n / 10 / 10 == n / 100);
    assert(n / 10 / 10 / 10 == n / 1000);
    assert(n / 10 / 10 / 10 / 10 == n / 10000);
    assert(n / 10 / 10 / 10 / 10 / 10 == n / 100000);
    assert(n / 10 / 10 / 10 / 10 / 10 / 10 == 0);
}

proof fn lemma_dot_bit_shift(d: u8)
    requires
        1 <= d <= 6,
    ensures
        dot_bit(d as int) == (1u8 << ((d - 1) as u8)) as int,
{
    if d == 1 {
        assert(1u8 << 0u8 == 1u8) by (bit_vector);
    } else if d == 2 {
        assert(1u8 << 1u8 == 2u8) by (bit_vector);
    } else if d == 3 {
        assert(1u8 << 2u8 == 4u8) by (bit_vector);
    } else if d == 4 {
        assert(1u8 << 3u8 == 8u8) by (bit_vector);
    } else if d == 5 {
        assert(1u8 << 4u8 == 16u8) by (bit_vector);
    } else {
        assert(1u8 << 5u8 == 32u8) by (bit_vector);
    }
}

/// Adding the bit of dot `d` to a mask of lower dots raises dot `d`, keeps
/// the lower dots and raises none above.
proof fn lemma_add_top_dot(m: u8, d: u8, j: u8)
    requires
        1 <= d <= 6,
        1 <= j <= 6,
        (m as int) < dot_bit(d as int),
    ensures
        (m as int) + dot_bit(d as int) < 2 * dot_bit(d as int),
        mask_has_dot((m as int + dot_bit(d as int)) as u8, j as int) == if j == d {
            true
        } else if j < d {
            mask_has_dot(m, j as int)
        } else {
            false
        },
{
    lemma_dot_bit_shift(d);
    lemma_dot_bit_shift(j);
    let bd: u8 = 1u8 << ((d - 1) as u8);
    let bj: u8 = 1u8 << ((j - 1) as u8);
    let sum: u8 = (m + bd) as u8;
    assert(((sum & bj) != 0) == if j == d {
        true
    } else if j < d {
        (m & bj) != 0
    } else {
        false
    }) by (bit_vector)
        requires
            1 <= d <= 6,
            1 <= j <= 6,
            bd == 1u8 << ((d - 1) as u8),
            bj == 1u8 << ((j - 1) as u8),
            m < bd,
            sum == m + bd,
    ;
}

proof fn lemma_empty_mask_digits(k: int)
    ensures
        dot_digits_upto(0u8, k) == Seq::<char>::empty(),
    decreases k,
{
    if k > 0 {
        lemma_empty_mask_digits(k - 1);
        assert((0u8 & (dot_bit(k) as u8)) == 0u8) by (bit_vector);
    }
}

/// Masks that agree on dots 1 to `k` list the same digits up to `k`.
proof fn lemma_digits_agree(m1: u8, m2: u8, k: int)
    requires
        forall|j: int| 1 <= j <= k ==> mask_has_dot(m1, j) == mask_has_dot(m2, j),
    ensures
        dot_digits_upto(m1, k) == dot_digits_upto(m2, k),
    decreases k,
{
    if k > 0 {
        lemma_digits_agree(m1, m2, k - 1);
    }
}

proof fn lemma_descending_mask(n: int, b: int)
    requires
        descending_dots(n, b),
        1 <= b <= 7,
    ensures
        0 <= digits_mask(n) < dot_bit(b) || (b == 7 && digits_mask(n) < 64),
        forall|k: int|
            (if n > 0 { n % 10 } else { 0 }) <= k <= 6 ==> #[trigger] dot_digits_upto(
                digits_mask(n) as u8,
                k,
            ) == decimal_text(n),
    decreases n,
{
    if n <= 0 {
        assert forall|k: int| 0 <= k <= 6 implies #[trigger] dot_digits_upto(
            digits_mask(n) as u8,
            k,
        ) == decimal_text(n) by {
            lemma_empty_mask_digits(k);
        }
    } else {
        let d = n % 10;
        let r = n / 10;
        lemma_descending_mask(r, d);
        let mr = digits_mask(r);
        let m = digits_mask(n);
        assert(m == mr + dot_bit(d));
        assert forall|j: int| 1 <= j <= 6 implies #[trigger] mask_has_dot(m as u8, j) == if j == d {
            true
        } else if j < d {
            mask_has_dot(mr as u8, j)
        } else {
            false
        } by {
            lemma_add_top_dot(mr as u8, d as u8, j as u8);
        }
        lemma_add_top_dot(mr as u8, d as u8, 1);
        assert(descending_dots(r, d));
        if r > 0 {
            assert(r % 10 < d);
        }
        lemma_digits_agree(m as u8, mr as u8, d - 1);
        assert(dot_digits_upto(m as u8, d) == decimal_text(n));
        assert forall|k: int| d <= k <= 6 implies #[trigger] dot_digits_upto(m as u8, k)
            == decimal_text(n) by {
            lemma_digits_above(m as u8, d, k);
        }
    }
}

/// Listing digits past the highest raised dot adds nothing.
proof fn lemma_digits_above(m: u8, d: int, k: int)
    requires
        d <= k,
        forall|j: int| d < j <= 6 ==> !mask_has_dot(m, j),
    ensures
        dot_digits_upto(m, k) == dot_digits_upto(m, d),
    decreases k - d,
{
    if k > d {
        lemma_digits_above(m, d, k - 1);
    }
}

/// Reading back the dots of the cell that a dot number names gives that
/// dot number's digits: the same dots, in ascending order.
pub proof fn lemma_dots_round_trip(d: int)
    requires
        is_dot_number(d),
    ensures
        dot_digits_upto(BraillePattern::cell(d).mask(), 6) == decimal_text(d),
{
    lemma_dot_number_digits(d);
    lemma_descending_mask(d, 7);
}

/// A cell is determined by its mask.
pub proof fn lemma_mask_determines(a: BraillePattern, b: BraillePattern)
    requires
        a.mask() == b.mask(),
    ensures
        a == b,
{
}

/// The cell that a dot number names has that number's mask.
pub proof fn lemma_cell_mask(n: int)
    requires
        is_dot_number(n),
    ensures
        BraillePattern::cell(n).mask() == dot_number_mask(n),
        BraillePattern::cell(n).valid(),
        !BraillePattern::cell(n).is_newline(),
{
}

} // verus!
