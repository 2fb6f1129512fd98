//! Digit validation and grouping.
//!
//! A digit string is read from its least significant end and cut into
//! [`NumBlock`]s of three digits each; block `k` carries magnitude index `k`
//! (units, thousand, million, ...). Leading zeros carry no information, so the
//! grouper works on the string with its leading zeros stripped; an input of
//! zeros only yields the single all-zero units block, which renders as
//! `"zero"`.

use vstd::prelude::*;

use crate::VerbalizeError;

verus! {

/// How many magnitude names exist (index 0, the empty units name, included).
pub const MAX_GROUPS: usize = 16;

/// Longest run of significant digits that still fits the magnitude table:
/// three digits for each named magnitude.
pub const MAX_DIGITS: usize = 48;

/// A decimal digit character.
pub open spec fn is_digit_char(c: char) -> bool {
    '0' <= c && c <= '9'
}

/// Numeric value of a digit character.
pub open spec fn digit_val(c: char) -> int {
    c as u32 - '0' as u32
}

/// Every character of `s` is a decimal digit.
pub open spec fn all_digits(s: Seq<char>) -> bool {
    forall|i: int| 0 <= i < s.len() ==> is_digit_char(#[trigger] s[i])
}

/// The digit values of a digit string, most significant first.
pub open spec fn digit_seq(s: Seq<char>) -> Seq<int> {
    s.map_values(|c: char| digit_val(c))
}

/// `s` without its leading `'0'` characters.
pub open spec fn strip_leading_zeros(s: Seq<char>) -> Seq<char>
    decreases s.len(),
{
    if s.len() > 0 && s[0] == '0' {
        strip_leading_zeros(s.drop_first())
    } else {
        s
    }
}

/// One group of three decimal digits plus its place in the magnitude
/// hierarchy: group `index` stands for `(100*huns + 10*tens + ones) *
/// 1000^index`. `last` marks the most significant group of the sequence.
#[derive(Clone, Copy, Debug, PartialEq, Eq, Structural)]
pub struct NumBlock {
    /// Magnitude index: 0 for units, 1 for thousand, 2 for million, ...
    pub index: u32,
    /// Whether this is the most significant group of its sequence.
    pub last: bool,
    /// Ones digit, 0 to 9.
    pub ones: u32,
    /// Tens digit, 0 to 9.
    pub tens: u32,
    /// Hundreds digit, 0 to 9.
    pub huns: u32,
}

impl NumBlock {
    /// All three digits are zero.
    pub open spec fn spec_is_empty(&self) -> bool {
        self.huns == 0 && self.tens == 0 && self.ones == 0
    }

    /// The block invariant: digits are in range and the magnitude index has a
    /// name in the table.
    pub open spec fn wf(&self) -> bool {
        self.ones <= 9 && self.tens <= 9 && self.huns <= 9 && self.index < MAX_GROUPS
    }

    /// All three digits are zero.
    pub fn is_empty(&self) -> (r: bool)
        ensures
            r == self.spec_is_empty(),
    {
        self.huns == 0 && self.tens == 0 && self.ones == 0
    }
}

/// Numeric value of a digit character, as executable code.
pub fn char_to_int(c: char) -> (r: u32)
    requires
        is_digit_char(c),
    ensures
        r == digit_val(c),
{
    c as u32 - 48
}

/// The `j`-th digit of `d` counted from the least significant end; positions
/// beyond the string are the zeros an unfilled group position defaults to.
pub open spec fn digit_from_end(d: Seq<int>, j: int) -> int {
    if 0 <= j < d.len() {
        d[d.len() - 1 - j]
    } else {
        0
    }
}

/// How many groups `m` significant digits form: one group per three digits,
/// rounded up, and a single all-zero group when no digit is significant.
pub open spec fn num_groups(m: int) -> int {
    if m == 0 {
        1
    } else {
        (m + 2) / 3
    }
}

/// Group `k` of the digit sequence `d` (most significant digit first): the
/// three digits `3k`, `3k+1`, `3k+2` from the least significant end.
pub open spec fn spec_block(d: Seq<int>, k: int) -> NumBlock {
    NumBlock {
        index: k as u32,
        last: k == num_groups(d.len() as int) - 1,
        ones: digit_from_end(d, 3 * k) as u32,
        tens: digit_from_end(d, 3 * k + 1) as u32,
        huns: digit_from_end(d, 3 * k + 2) as u32,
    }
}

/// All groups of the digit sequence `d`, least significant first.
pub open spec fn spec_groups(d: Seq<int>) -> Seq<NumBlock> {
    Seq::new(num_groups(d.len() as int) as nat, |k: int| spec_block(d, k))
}

/// Every group of a digit sequence of at most [`MAX_DIGITS`] in-range digits
/// satisfies the block invariant.
pub proof fn lemma_groups_wf(d: Seq<int>)
    requires
        forall|i: int| 0 <= i < d.len() ==> 0 <= #[trigger] d[i] <= 9,
        d.len() <= MAX_DIGITS,
    ensures
        forall|k: int|
            0 <= k < spec_groups(d).len() ==> (#[trigger] spec_groups(d)[k]).wf(),
{
    assert forall|k: int|
        0 <= k < spec_groups(d).len() implies (#[trigger] spec_groups(d)[k]).wf() by {
        assert(spec_groups(d)[k] == spec_block(d, k));
        assert(num_groups(d.len() as int) <= MAX_GROUPS);
        assert(0 <= digit_from_end(d, 3 * k) <= 9);
        assert(0 <= digit_from_end(d, 3 * k + 1) <= 9);
        assert(0 <= digit_from_end(d, 3 * k + 2) <= 9);
    }
}

/// Stripping leading zeros is the same as skipping past them: if the first
/// `k` characters of `s` are `'0'` and character `k`, if any, is not,
/// stripping drops exactly those `k` characters.
pub proof fn lemma_strip_is_skip(s: Seq<char>, k: int)
    requires
        0 <= k <= s.len(),
        forall|j: int| 0 <= j < k ==> #[trigger] s[j] == '0',
        k < s.len() ==> s[k] != '0',
    ensures
        strip_leading_zeros(s) == s.skip(k),
    decreases k,
{
    if k == 0 {
        assert(s.skip(0) =~= s);
    } else {
        lemma_strip_is_skip(s.drop_first(), k - 1);
        assert(s.drop_first().skip(k - 1) =~= s.skip(k));
    }
}

/// A string of zeros strips to the empty string.
pub proof fn lemma_strip_all_zeros(s: Seq<char>)
    requires
        forall|j: int| 0 <= j < s.len() ==> #[trigger] s[j] == '0',
    ensures
        strip_leading_zeros(s) == Seq::<char>::empty(),
    decreases s.len(),
{
    if s.len() == 0 {
        assert(s =~= Seq::<char>::empty());
    } else {
        lemma_strip_all_zeros(s.drop_first());
    }
}

/// The digit at offset `j` from the least significant end of the significant
/// part of `s` (the part from position `start` on).
fn digit_at_from_end(s: &str, start: usize, j: usize) -> (r: u32)
    requires
        all_digits(s@),
        start <= s@.len(),
    ensures
        r == digit_from_end(digit_seq(s@.skip(start as int)), j as int),
{
    let n = s.unicode_len();
    let m = n - start;
    let ghost d = digit_seq(s@.skip(start as int));
    assert(d.len() == m);
    if j < m {
        let c = s.get_char(n - 1 - j);
        assert(s@.skip(start as int)[m - 1 - j] == s@[n - 1 - j]);
        assert(d[m - 1 - j] == digit_val(s@[n - 1 - j]));
        char_to_int(c)
    } else {
        0
    }
}

impl NumBlock {
    /// Cuts a digit string into its groups, least significant first, per the
    /// model [`spec_groups`]. A non-digit character is refused before any
    /// grouping happens; a string with more significant digits than the
    /// magnitude table covers is refused as an overflow; zeros only (or
    /// nothing) yield the single all-zero units group.
    pub fn to_num_blocks(s: &str) -> (r: Result<Vec<NumBlock>, VerbalizeError>)
        ensures
            (r matches Err(VerbalizeError::InvalidCharacter)) <==> !all_digits(s@),
            (r matches Err(VerbalizeError::MagnitudeOverflow)) <==> (all_digits(s@)
                && strip_leading_zeros(s@).len() > MAX_DIGITS),
            r matches Ok(bs) ==> {
                &&& all_digits(s@)
                &&& strip_leading_zeros(s@).len() <= MAX_DIGITS
                &&& bs@ == spec_groups(digit_seq(strip_leading_zeros(s@)))
                &&& forall|k: int| 0 <= k < bs@.len() ==> (#[trigger] bs@[k]).wf()
            },
    {
        let n = s.unicode_len();

        // Validation: every character must be a decimal digit.
        let mut i: usize = 0;
        while i < n
            invariant
                n == s@.len(),
                i <= n,
                forall|j: int| 0 <= j < i ==> is_digit_char(#[trigger] s@[j]),
            decreases n - i,
        {
            let c = s.get_char(i);
            if c < '0' || c > '9' {
                assert(!is_digit_char(s@[i as int]));
                return Err(VerbalizeError::InvalidCharacter);
            }
            i += 1;
        }
        assert(all_digits(s@));

        // Find where the significant digits begin.
        let mut start: usize = 0;
        while start < n && s.get_char(start) == '0'
            invariant
                n == s@.len(),
                start <= n,
                forall|j: int| 0 <= j < start ==> #[trigger] s@[j] == '0',
            decreases n - start,
        {
            start += 1;
        }
        proof {
            lemma_strip_is_skip(s@, start as int);
        }
        let ghost t = s@.skip(start as int);
        let ghost d = digit_seq(t);
        let m = n - start;
        assert(d.len() == m);
        assert forall|i2: int| 0 <= i2 < d.len() implies 0 <= #[trigger] d[i2] <= 9 by {
            assert(is_digit_char(s@[start + i2]));
        }

        if m > MAX_DIGITS {
            return Err(VerbalizeError::MagnitudeOverflow);
        }

        let mut bs: Vec<NumBlock> = Vec::new();
        if m == 0 {
            // Nothing significant: keep the single all-zero units group so
            // that a renderable "zero" remains.
            bs.push(
                NumBlock { index: 0, last: true, ones: 0, tens: 0, huns: 0 },
            );
            assert(bs@ =~= spec_groups(d));
        } else {
            let nb = (m + 2) / 3;
            assert(nb == num_groups(m as int));
            let mut k: usize = 0;
            while k < nb
                invariant
                    all_digits(s@),
                    start <= n,
                    n == s@.len(),
                    m == n - start,
                    t == s@.skip(start as int),
                    d == digit_seq(t),
                    1 <= nb <= MAX_GROUPS,
                    nb == num_groups(m as int),
                    k <= nb,
                    bs@.len() == k,
                    forall|j: int| 0 <= j < k ==> #[trigger] bs@[j] == spec_block(d, j),
                decreases nb - k,
            {
                let ones = digit_at_from_end(s, start, 3 * k);
                let tens = digit_at_from_end(s, start, 3 * k + 1);
                let huns = digit_at_from_end(s, start, 3 * k + 2);
                assert(0 <= digit_from_end(d, 3 * k as int) <= 9);
                assert(0 <= digit_from_end(d, 3 * k as int + 1) <= 9);
                assert(0 <= digit_from_end(d, 3 * k as int + 2) <= 9);
                let block = NumBlock {
                    index: k as u32,
                    last: k == nb - 1,
                    ones,
                    tens,
                    huns,
                };
                assert(block == spec_block(d, k as int));
                bs.push(block);
                k += 1;
            }
            assert(bs@ =~= spec_groups(d));
        }
        proof {
            lemma_groups_wf(d);
        }
        Ok(bs)
    }
}

} // verus!
