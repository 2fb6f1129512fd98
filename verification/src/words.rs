//! Word rendering.
//!
//! One [`NumBlock`] becomes a fragment of the sentence: an optional separating
//! comma, the hundreds part, the tens/ones part (with the teens as the one
//! grammar exception), and the magnitude name. [`sentence_of`] is the whole
//! sentence: the fragments of all groups, most significant group first.

use vstd::prelude::*;

use crate::blocks::NumBlock;

verus! {

/// Word for a single digit, `"zero"` through `"nine"`.
pub open spec fn ones_word(d: int) -> Seq<char> {
    if d == 0 {
        "zero"@
    } else if d == 1 {
        "one"@
    } else if d == 2 {
        "two"@
    } else if d == 3 {
        "three"@
    } else if d == 4 {
        "four"@
    } else if d == 5 {
        "five"@
    } else if d == 6 {
        "six"@
    } else if d == 7 {
        "seven"@
    } else if d == 8 {
        "eight"@
    } else if d == 9 {
        "nine"@
    } else {
        Seq::empty()
    }
}

/// Word for the value `10 + d`, for ones digits 1 through 9. Value 10 itself
/// is not a teen: `"ten"` comes from the tens table.
pub open spec fn teen_word(d: int) -> Seq<char> {
    if d == 1 {
        "eleven"@
    } else if d == 2 {
        "twelve"@
    } else if d == 3 {
        "thirteen"@
    } else if d == 4 {
        "fourteen"@
    } else if d == 5 {
        "fifteen"@
    } else if d == 6 {
        "sixteen"@
    } else if d == 7 {
        "seventeen"@
    } else if d == 8 {
        "eighteen"@
    } else if d == 9 {
        "nineteen"@
    } else {
        Seq::empty()
    }
}

/// Word for `10 * d`, for tens digits 1 through 9.
pub open spec fn tens_word(d: int) -> Seq<char> {
    if d == 1 {
        "ten"@
    } else if d == 2 {
        "twenty"@
    } else if d == 3 {
        "thirty"@
    } else if d == 4 {
        "forty"@
    } else if d == 5 {
        "fifty"@
    } else if d == 6 {
        "sixty"@
    } else if d == 7 {
        "seventy"@
    } else if d == 8 {
        "eighty"@
    } else if d == 9 {
        "ninety"@
    } else {
        Seq::empty()
    }
}

/// Name of magnitude index `i`, for indices 1 through 15; index 0 (units) has
/// no name.
pub open spec fn magnitude_name(i: int) -> Seq<char> {
    if i == 1 {
        "thousand"@
    } else if i == 2 {
        "million"@
    } else if i == 3 {
        "billion"@
    } else if i == 4 {
        "trillion"@
    } else if i == 5 {
        "quadrillion"@
    } else if i == 6 {
        "quintillion"@
    } else if i == 7 {
        "sextillion"@
    } else if i == 8 {
        "septillion"@
    } else if i == 9 {
        "octillion"@
    } else if i == 10 {
        "nonillion"@
    } else if i == 11 {
        "decillion"@
    } else if i == 12 {
        "undecillion"@
    } else if i == 13 {
        "duodecillion"@
    } else if i == 14 {
        "tredecillion"@
    } else if i == 15 {
        "quattuordecillion"@
    } else {
        Seq::empty()
    }
}

/// Word for a single digit, as executable code.
pub fn ones_str(d: u32) -> (r: &'static str)
    requires
        d <= 9,
    ensures
        r@ == ones_word(d as int),
{
    if d == 0 {
        "zero"
    } else if d == 1 {
        "one"
    } else if d == 2 {
        "two"
    } else if d == 3 {
        "three"
    } else if d == 4 {
        "four"
    } else if d == 5 {
        "five"
    } else if d == 6 {
        "six"
    } else if d == 7 {
        "seven"
    } else if d == 8 {
        "eight"
    } else {
        "nine"
    }
}

/// Word for the value `10 + d`, as executable code.
pub fn teen_str(d: u32) -> (r: &'static str)
    requires
        1 <= d <= 9,
    ensures
        r@ == teen_word(d as int),
{
    if d == 1 {
        "eleven"
    } else if d == 2 {
        "twelve"
    } else if d == 3 {
        "thirteen"
    } else if d == 4 {
        "fourteen"
    } else if d == 5 {
        "fifteen"
    } else if d == 6 {
        "sixteen"
    } else if d == 7 {
        "seventeen"
    } else if d == 8 {
        "eighteen"
    } else {
        "nineteen"
    }
}

/// Word for `10 * d`, as executable code.
pub fn tens_str(d: u32) -> (r: &'static str)
    requires
        1 <= d <= 9,
    ensures
        r@ == tens_word(d as int),
{
    if d == 1 {
        "ten"
    } else if d == 2 {
        "twenty"
    } else if d == 3 {
        "thirty"
    } else if d == 4 {
        "forty"
    } else if d == 5 {
        "fifty"
    } else if d == 6 {
        "sixty"
    } else if d == 7 {
        "seventy"
    } else if d == 8 {
        "eighty"
    } else {
        "ninety"
    }
}

/// Name of magnitude index `i`, as executable code.
pub fn magnitude_str(i: u32) -> (r: &'static str)
    requires
        1 <= i <= 15,
    ensures
        r@ == magnitude_name(i as int),
{
    if i == 1 {
        "thousand"
    } else if i == 2 {
        "million"
    } else if i == 3 {
        "billion"
    } else if i == 4 {
        "trillion"
    } else if i == 5 {
        "quadrillion"
    } else if i == 6 {
        "quintillion"
    } else if i == 7 {
        "sextillion"
    } else if i == 8 {
        "septillion"
    } else if i == 9 {
        "octillion"
    } else if i == 10 {
        "nonillion"
    } else if i == 11 {
        "decillion"
    } else if i == 12 {
        "undecillion"
    } else if i == 13 {
        "duodecillion"
    } else if i == 14 {
        "tredecillion"
    } else {
        "quattuordecillion"
    }
}

/// The separating comma: placed before a group's own words when the group is
/// neither the most significant one nor all zero.
pub open spec fn comma_part(b: NumBlock) -> Seq<char> {
    if !b.last && !b.spec_is_empty() {
        ", "@
    } else {
        Seq::empty()
    }
}

/// The hundreds fragment: `"<digit> hundred"` when the hundreds digit is
/// nonzero.
pub open spec fn hundreds_part(b: NumBlock) -> Seq<char> {
    if b.huns != 0 {
        ones_word(b.huns as int) + " hundred"@
    } else {
        Seq::empty()
    }
}

/// The tens and ones fragment. A tens digit of one with a nonzero ones digit
/// is a teen and overrides the usual tens-then-ones composition; otherwise
/// each nonzero digit contributes its word, with a single joining space
/// wherever words stand on both sides.
pub open spec fn tens_ones_part(b: NumBlock) -> Seq<char> {
    if b.tens == 1 && b.ones != 0 {
        (if b.huns != 0 {
            " "@
        } else {
            Seq::empty()
        }) + teen_word(b.ones as int)
    } else {
        (if b.tens != 0 {
            (if b.huns != 0 {
                " "@
            } else {
                Seq::empty()
            }) + tens_word(b.tens as int)
        } else {
            Seq::empty()
        }) + (if b.ones != 0 {
            (if b.tens != 0 || b.huns != 0 {
                " "@
            } else {
                Seq::empty()
            }) + ones_word(b.ones as int)
        } else {
            Seq::empty()
        })
    }
}

/// The magnitude fragment: a space and the magnitude name, for a nonzero
/// group above the units.
pub open spec fn magnitude_part(b: NumBlock) -> Seq<char> {
    if b.index != 0 && !b.spec_is_empty() {
        " "@ + magnitude_name(b.index as int)
    } else {
        Seq::empty()
    }
}

/// The whole fragment a group contributes to the sentence. An all-zero most
/// significant group can only be the sole group of an all-zero number and
/// renders as `"zero"`; an all-zero group anywhere else contributes nothing,
/// not even a separator.
pub open spec fn block_words(b: NumBlock) -> Seq<char> {
    if b.last && b.spec_is_empty() {
        "zero"@
    } else {
        comma_part(b) + hundreds_part(b) + tens_ones_part(b) + magnitude_part(b)
    }
}

/// The sentence fragments of the groups `i` and above of `gs`, rendered most
/// significant group first.
pub open spec fn sentence_from(gs: Seq<NumBlock>, i: int) -> Seq<char>
    decreases gs.len() - i,
{
    if i < 0 || i >= gs.len() {
        Seq::empty()
    } else {
        sentence_from(gs, i + 1) + block_words(gs[i])
    }
}

/// The whole sentence for the group sequence `gs` (least significant group
/// first, as the grouper builds it): every group's fragment, most significant
/// group first.
pub open spec fn sentence_of(gs: Seq<NumBlock>) -> Seq<char> {
    sentence_from(gs, 0)
}

/// An all-zero group that is not the most significant one contributes nothing
/// at all to the sentence: no words, no comma, no magnitude name.
pub proof fn lemma_silent_zero_group(b: NumBlock)
    requires
        !b.last,
        b.spec_is_empty(),
    ensures
        block_words(b) == Seq::<char>::empty(),
{
    assert(block_words(b) =~= Seq::<char>::empty());
}

impl NumBlock {
    /// Renders this group's sentence fragment, exactly [`block_words`].
    pub fn word_form(&self) -> (r: String)
        requires
            self.wf(),
        ensures
            r@ == block_words(*self),
    {
        let mut out = String::new();
        if self.last && self.is_empty() {
            out.append("zero");
        } else {
            if !self.last && !self.is_empty() {
                out.append(", ");
            }
            assert(out@ == comma_part(*self));
            if self.huns != 0 {
                out.append(ones_str(self.huns));
                out.append(" hundred");
            }
            assert(out@ =~= comma_part(*self) + hundreds_part(*self));
            if self.tens == 1 && self.ones != 0 {
                if self.huns != 0 {
                    out.append(" ");
                }
                out.append(teen_str(self.ones));
            } else {
                if self.tens != 0 {
                    if self.huns != 0 {
                        out.append(" ");
                    }
                    out.append(tens_str(self.tens));
                }
                if self.ones != 0 {
                    if self.tens != 0 || self.huns != 0 {
                        out.append(" ");
                    }
                    out.append(ones_str(self.ones));
                }
            }
            assert(out@ =~= comma_part(*self) + hundreds_part(*self) + tens_ones_part(*self));
            if self.index != 0 && !self.is_empty() {
                out.append(" ");
                out.append(magnitude_str(self.index));
            }
            assert(out@ =~= comma_part(*self) + hundreds_part(*self) + tens_ones_part(*self)
                + magnitude_part(*self));
        }
        out
    }
}

} // verus!
