use vstd::prelude::*;

use crate::errors::ValidationError;

verus! {

/// What `char::is_alphanumeric` returns for a character. Unicode's
/// alphanumeric classification is far too large to restate here, so the
/// result is only named; within ASCII it is pinned down by `ascii_alnum`.
pub uninterp spec fn is_alnum(c: char) -> bool;

/// The ASCII digit and letter ranges, `0`-`9`, `A`-`Z` and `a`-`z`.
pub open spec fn ascii_alnum(c: char) -> bool {
    ||| ('0' as u32) <= (c as u32) && (c as u32) <= ('9' as u32)
    ||| ('A' as u32) <= (c as u32) && (c as u32) <= ('Z' as u32)
    ||| ('a' as u32) <= (c as u32) && (c as u32) <= ('z' as u32)
}

/// Relies on `char::is_alphanumeric`: true exactly on characters in one of
/// Unicode's alphabetic or numeric general categories. The classification is
/// only named (`is_alnum`); within ASCII it agrees with the digit and letter
/// ranges, as the standard library documents.
pub assume_specification[ char::is_alphanumeric ](c: char) -> (r: bool)
    ensures
        r == is_alnum(c),
        (c as u32) < 128 ==> r == ascii_alnum(c),
;

/// A character that survives the validator's filtering step: an alphanumeric
/// character, or a further `#`. Keeping `#` is the deliberate looseness
/// documented on `valid_color_code`.
pub open spec fn color_char(c: char) -> bool {
    is_alnum(c) || c == '#'
}

/// How many characters of `s` survive the filtering step.
pub open spec fn color_char_count(s: Seq<char>) -> nat
    decreases s.len(),
{
    if s.len() == 0 {
        0
    } else {
        color_char_count(s.drop_last()) + if color_char(s.last()) {
            1nat
        } else {
            0nat
        }
    }
}

/// How many characters of `s` are alphanumeric.
pub open spec fn alnum_count(s: Seq<char>) -> nat
    decreases s.len(),
{
    if s.len() == 0 {
        0
    } else {
        alnum_count(s.drop_last()) + if is_alnum(s.last()) {
            1nat
        } else {
            0nat
        }
    }
}

/// An acceptable color code: exactly seven characters, a leading `#`, and
/// six characters surviving the filter after the leading `#`.
///
/// Since exactly six characters follow the `#`, the count reaches six exactly
/// when every one of them is alphanumeric or a further `#`
/// (`lemma_full_count_iff_all_color`). A further `#` among them is accepted
/// on purpose: the filter discards only characters that are neither, so
/// `#1#2345` passes. This looseness is part of the contract, not an
/// accident to be tightened.
pub open spec fn valid_color_code(s: Seq<char>) -> bool {
    &&& s.len() == 7
    &&& s[0] == '#'
    &&& color_char_count(s.subrange(1, 7)) == 6
}

/// The one diagnostic that every failed validation carries, whatever the
/// failure cause.
pub open spec fn color_format_message() -> Seq<char> {
    "Color should be in the #hex format (e.g #000000) for black"@
}

/// Validation of caller-supplied color strings. Implemented for `str`, so a
/// caller holding a `&str` color can check it before rendering with it.
pub trait Validation {
    /// The characters of the candidate color code.
    spec fn color_chars(&self) -> Seq<char>;

    /// Decides whether the candidate is an acceptable `#`-prefixed color
    /// code. Succeeds exactly on candidates accepted by `valid_color_code`;
    /// every failure carries the same fixed message.
    fn validate_color_code(&self) -> (r: Result<bool, ValidationError>)
        ensures
            r is Ok <==> valid_color_code(self.color_chars()),
            r is Ok ==> r->Ok_0 == true,
            r is Err ==> r->Err_0@ == color_format_message(),
    ;
}

impl Validation for str {
    open spec fn color_chars(&self) -> Seq<char> {
        self@
    }

    fn validate_color_code(&self) -> (r: Result<bool, ValidationError>) {
        let n = self.unicode_len();

        // the color must start with a # (i.e. hex code format)
        if n == 0 || self.get_char(0) != '#' {
            return Err(ValidationError::new(
                "Color should be in the #hex format (e.g #000000) for black",
            ));
        }

        // the color must have a length of 7 (e.g. #123456)
        if n != 7 {
            return Err(ValidationError::new(
                "Color should be in the #hex format (e.g #000000) for black",
            ));
        }

        // filter away every character after the # that is neither
        // alphanumeric nor a further #, and count what remains
        let mut count: usize = 0;
        let mut i: usize = 1;
        while i < 7
            invariant
                1 <= i <= 7,
                self@.len() == 7,
                count == color_char_count(self@.subrange(1, i as int)),
                count < i,
            decreases 7 - i,
        {
            let c = self.get_char(i);
            proof {
                assert(self@.subrange(1, i as int + 1).drop_last() =~= self@.subrange(
                    1,
                    i as int,
                ));
                assert(self@.subrange(1, i as int + 1).last() == self@[i as int]);
            }
            if c.is_alphanumeric() || c == '#' {
                count = count + 1;
            }
            i = i + 1;
        }
        if count != 6 {
            return Err(ValidationError::new(
                "Color should be in the #hex format (e.g #000000) for black",
            ));
        }

        // all validations passed for this color code
        Ok(true)
    }
}

/// The pure half of the failure policy: hands an acceptable candidate back
/// unchanged for the renderer to use, and returns the error otherwise. A
/// caller that must not go on rendering with a bad color wraps this and
/// terminates on `Err`; the validator itself never does.
pub fn validated_color<'a>(color: &'a str) -> (r: Result<&'a str, ValidationError>)
    ensures
        r is Ok <==> valid_color_code(color@),
        r is Ok ==> r->Ok_0@ == color@,
        r is Err ==> r->Err_0@ == color_format_message(),
{
    match color.validate_color_code() {
        Ok(_) => Ok(color),
        Err(e) => Err(e),
    }
}

proof fn lemma_color_char_count_le(s: Seq<char>)
    ensures
        color_char_count(s) <= s.len(),
    decreases s.len(),
{
    if s.len() > 0 {
        lemma_color_char_count_le(s.drop_last());
    }
}

proof fn lemma_alnum_count_le(s: Seq<char>)
    ensures
        alnum_count(s) <= s.len(),
    decreases s.len(),
{
    if s.len() > 0 {
        lemma_alnum_count_le(s.drop_last());
    }
}

/// The filtering-then-counting looseness in general form: the count reaches
/// the full length exactly when every character is alphanumeric or a further
/// `#`. In particular a `#` among the six characters after the leading `#`
/// still counts, which is what lets `#1#2345` pass.
pub proof fn lemma_full_count_iff_all_color(s: Seq<char>)
    ensures
        color_char_count(s) == s.len() <==> (forall|i: int|
            0 <= i < s.len() ==> color_char(s[i])),
    decreases s.len(),
{
    if s.len() > 0 {
        let t = s.drop_last();
        lemma_full_count_iff_all_color(t);
        lemma_color_char_count_le(t);
        assert(forall|i: int| 0 <= i < t.len() ==> t[i] == s[i]);
        if color_char_count(s) == s.len() {
            assert(s.last() == s[s.len() - 1]);
        }
        if forall|i: int| 0 <= i < s.len() ==> color_char(s[i]) {
            assert(color_char(s[s.len() - 1]));
        }
    }
}

/// As `lemma_full_count_iff_all_color`, for the strictly alphanumeric count.
pub proof fn lemma_full_count_iff_all_alnum(s: Seq<char>)
    ensures
        alnum_count(s) == s.len() <==> (forall|i: int| 0 <= i < s.len() ==> is_alnum(s[i])),
    decreases s.len(),
{
    if s.len() > 0 {
        let t = s.drop_last();
        lemma_full_count_iff_all_alnum(t);
        lemma_alnum_count_le(t);
        assert(forall|i: int| 0 <= i < t.len() ==> t[i] == s[i]);
        if alnum_count(s) == s.len() {
            assert(s.last() == s[s.len() - 1]);
        }
        if forall|i: int| 0 <= i < s.len() ==> is_alnum(s[i]) {
            assert(is_alnum(s[s.len() - 1]));
        }
    }
}

/// No candidate that is empty or does not start with `#` is ever accepted.
pub proof fn lemma_rejects_missing_hash(s: Seq<char>)
    requires
        s.len() == 0 || s[0] != '#',
    ensures
        !valid_color_code(s),
{
}

/// No candidate of any length other than seven is ever accepted, whatever
/// its content.
pub proof fn lemma_rejects_wrong_length(s: Seq<char>)
    requires
        s.len() != 7,
    ensures
        !valid_color_code(s),
{
}

/// Seven characters, a leading `#`, and all six characters after it left
/// standing by the alphanumeric filter: such a candidate is always accepted.
pub proof fn lemma_accepts_alnum_tail(s: Seq<char>)
    requires
        s.len() == 7,
        s[0] == '#',
        alnum_count(s.subrange(1, 7)) == 6,
    ensures
        valid_color_code(s),
{
    let t = s.subrange(1, 7);
    lemma_full_count_iff_all_alnum(t);
    assert(forall|i: int| 0 <= i < t.len() ==> color_char(t[i]));
    lemma_full_count_iff_all_color(t);
}

} // verus!
