//! Spells out a non-negative integer, given as a string of decimal digits, in
//! English words: `"1355823"` becomes
//! `"one million, three hundred fifty five thousand, eight hundred twenty three"`.
//!
//! The work happens in three stages. [`blocks`] validates the digit string and
//! splits it into three-digit groups from the least significant end; [`words`]
//! renders one group with the short-scale English grammar (hundreds, teens,
//! tens, ones, magnitude name); [`verbalize`] joins the rendered groups, most
//! significant first, into the finished sentence.

use vstd::prelude::*;

pub mod blocks;
pub mod words;

verus! {

/// The ways a conversion request can fail. Both are recoverable per-request
/// conditions: the caller reports them and goes on.
#[derive(Clone, Copy, Debug, PartialEq, Eq, Structural)]
pub enum VerbalizeError {
    /// The input contains a character that is not a decimal digit.
    InvalidCharacter,
    /// The input has more significant digits than the magnitude-name table
    /// can express.
    MagnitudeOverflow,
}

/// What [`verbalize`] returns for the character sequence `s`: the sentence for
/// a digit string whose significant part fits the magnitude table, the exact
/// error otherwise. A non-digit character is reported ahead of anything else.
pub open spec fn spec_verbalize(s: Seq<char>) -> Result<Seq<char>, VerbalizeError> {
    if !blocks::all_digits(s) {
        Err(VerbalizeError::InvalidCharacter)
    } else if blocks::strip_leading_zeros(s).len() > blocks::MAX_DIGITS {
        Err(VerbalizeError::MagnitudeOverflow)
    } else {
        Ok(
            words::sentence_of(
                blocks::spec_groups(blocks::digit_seq(blocks::strip_leading_zeros(s))),
            ),
        )
    }
}

/// Spells out the digit string `s` in English words, most significant group
/// first, groups joined by `", "`, each nonzero group above the units followed
/// by its magnitude name. Leading zeros carry no value and do not change the
/// sentence; a string of zeros only (or an empty string) reads `"zero"`.
pub fn verbalize(s: &str) -> (r: Result<String, VerbalizeError>)
    ensures
        (match r {
            Ok(w) => spec_verbalize(s@) matches Ok(t) && w@ == t,
            Err(e) => spec_verbalize(s@) matches Err(e2) && e == e2,
        }),
{
    let groups = match blocks::NumBlock::to_num_blocks(s) {
        Ok(bs) => bs,
        Err(e) => {
            return Err(e);
        },
    };
    let ghost gs = groups@;
    let n = groups.len();
    let mut out = String::new();
    let mut i: usize = n;
    while i > 0
        invariant
            groups@ == gs,
            n == gs.len(),
            i <= n,
            forall|k: int| 0 <= k < gs.len() ==> (#[trigger] gs[k]).wf(),
            out@ == words::sentence_from(gs, i as int),
        decreases i,
    {
        i -= 1;
        let fragment = groups[i].word_form();
        out.append(fragment.as_str());
    }
    Ok(out)
}

/// Rendering is deterministic: the sentence is a function of the characters
/// of the input alone. The contract of [`verbalize`] pins its result to
/// [`spec_verbalize`], so two calls on inputs with the same characters return
/// the same words or the same error.
pub proof fn lemma_verbalize_deterministic(s1: Seq<char>, s2: Seq<char>)
    requires
        s1 == s2,
    ensures
        spec_verbalize(s1) == spec_verbalize(s2),
{
}

/// An input of zeros only, of any length (the empty input included), reads
/// exactly `"zero"`: not the empty sentence, and only one `"zero"`.
pub proof fn lemma_all_zeros_read_zero(s: Seq<char>)
    requires
        forall|i: int| 0 <= i < s.len() ==> #[trigger] s[i] == '0',
    ensures
        spec_verbalize(s) == Ok::<Seq<char>, VerbalizeError>("zero"@),
{
    assert(blocks::all_digits(s));
    blocks::lemma_strip_all_zeros(s);
    let d = blocks::digit_seq(blocks::strip_leading_zeros(s));
    assert(d.len() == 0);
    let gs = blocks::spec_groups(d);
    assert(gs.len() == 1);
    assert(gs[0] == blocks::spec_block(d, 0));
    assert(gs[0].spec_is_empty());
    assert(gs[0].last);
    assert(words::block_words(gs[0]) == "zero"@);
    assert(words::sentence_from(gs, 1) == Seq::<char>::empty());
    assert(words::sentence_from(gs, 0) == words::sentence_from(gs, 1) + words::block_words(gs[0]));
    assert(words::sentence_of(gs) =~= "zero"@);
}

/// The magnitude boundary: a digit string without leading zeros succeeds
/// exactly while its length fits the magnitude table, and one digit past the
/// last supported group is a magnitude overflow, never a wrong sentence.
pub proof fn lemma_magnitude_boundary(s: Seq<char>)
    requires
        blocks::all_digits(s),
        s.len() > 0 ==> s[0] != '0',
    ensures
        s.len() <= blocks::MAX_DIGITS ==> spec_verbalize(s) is Ok,
        s.len() > blocks::MAX_DIGITS ==> spec_verbalize(s) == Err::<Seq<char>,
            VerbalizeError,
        >(VerbalizeError::MagnitudeOverflow),
{
    assert(blocks::strip_leading_zeros(s) == s);
}

} // verus!
