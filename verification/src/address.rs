//! Telling an IPv4 address in dotted decimal notation from any other text.

use vstd::prelude::*;
use vstd::string::*;

verus! {

/// The fields of `text`: what stands between its dots, before the first and
/// behind the last. A text without a dot is one field.
pub open spec fn fields(text: Seq<char>) -> Seq<Seq<char>>
    decreases text.len(),
{
    if text.len() == 0 {
        seq![Seq::empty()]
    } else if text.last() == '.' {
        fields(text.drop_last()).push(Seq::empty())
    } else {
        let before = fields(text.drop_last());
        before.drop_last().push(before.last().push(text.last()))
    }
}

/// Whether `c` is a decimal digit.
pub open spec fn is_digit(c: char) -> bool {
    '0' <= c <= '9'
}

/// The number that the decimal digits of `field` write.
pub open spec fn number(field: Seq<char>) -> nat
    decreases field.len(),
{
    if field.len() == 0 {
        0
    } else {
        (10 * number(field.drop_last()) + (field.last() as u32 - '0' as u32)) as nat
    }
}

/// Whether `field` writes one byte of an address: one to three digits, no
/// zero before another digit, and no more than 255.
pub open spec fn is_octet(field: Seq<char>) -> bool {
    &&& 1 <= field.len() <= 3
    &&& forall|i: int| 0 <= i < field.len() ==> is_digit(#[trigger] field[i])
    &&& field.len() > 1 ==> field[0] != '0'
    &&& number(field) <= 255
}

/// Whether `text` is an IPv4 address: four fields, each of them a byte.
pub open spec fn is_ipv4(text: Seq<char>) -> bool {
    &&& fields(text).len() == 4
    &&& forall|i: int| 0 <= i < 4 ==> is_octet(#[trigger] fields(text)[i])
}

/// Text always has a last field.
pub proof fn lemma_fields_len(text: Seq<char>)
    ensures
        fields(text).len() >= 1,
    decreases text.len(),
{
    if text.len() > 0 {
        lemma_fields_len(text.drop_last());
    }
}

/// Tells whether `text` is an IPv4 address.
pub fn is_ipv4_address(text: &str) -> (yes: bool)
    ensures
        yes == is_ipv4(text@),
{
    let len: usize = text.unicode_len();
    // Fields before the current one; all of them were bytes.
    let mut done: usize = 0;
    // The current field, as far as it is read: its length and its number.
    let mut digits: usize = 0;
    let mut value: u32 = 0;
    let mut leading_zero: bool = false;
    let mut i: usize = 0;
    proof {
        assert(text@.take(0) =~= Seq::<char>::empty());
    }
    while i < len
        invariant
            len == text@.len(),
            i <= len,
            done <= 3,
            digits <= 3,
            value <= 255,
            fields(text@.take(i as int)).len() == done + 1,
            forall|k: int| 0 <= k < done ==> is_octet(#[trigger] fields(text@.take(i as int))[k]),
            ({
                let field = fields(text@.take(i as int)).last();
                &&& field.len() == digits
                &&& number(field) == value
                &&& forall|k: int| 0 <= k < field.len() ==> is_digit(#[trigger] field[k])
                &&& leading_zero == (digits > 0 && field[0] == '0')
                &&& digits > 1 ==> !leading_zero
            }),
        decreases len - i,
    {
        let c: char = text.get_char(i);
        let ghost before = text@.take(i as int);
        let ghost after = text@.take(i + 1);
        proof {
            assert(after.drop_last() == before);
            assert(after.last() == c);
            lemma_fields_len(before);
        }
        if c == '.' {
            if digits == 0 || done == 3 {
                proof {
                    lemma_rest_keeps_fields(text@, i + 1, done as int);
                    lemma_rest_keeps_count(text@, i + 1);
                }
                return false;
            }
            proof {
                assert forall|k: int| 0 <= k < done + 1 implies is_octet(
                    #[trigger] fields(after)[k],
                ) by {
                    assert(fields(after)[k] == fields(before)[k]);
                }
                assert(fields(after).last() =~= Seq::<char>::empty());
            }
            done = done + 1;
            digits = 0;
            value = 0;
            leading_zero = false;
        } else {
            let digit: bool = '0' <= c && c <= '9';
            let ghost field = fields(before).last().push(c);
            proof {
                assert(fields(after).last() == field);
                assert(field.drop_last() == fields(before).last());
                assert forall|k: int| 0 <= k < done implies #[trigger] fields(after)[k] == fields(
                    before,
                )[k] by {}
            }
            if !digit || digits == 3 || leading_zero {
                proof {
                    assert(!is_octet(field)) by {
                        if !digit {
                            assert(!is_digit(field[field.len() - 1]));
                        }
                    }
                    lemma_grown_field_is_no_octet(text@, i + 1, done as int);
                    lemma_rest_keeps_count(text@, i + 1);
                }
                return false;
            }
            let grown: u32 = value * 10 + (c as u32 - '0' as u32);
            if grown > 255 {
                proof {
                    assert(!is_octet(field));
                    lemma_grown_field_is_no_octet(text@, i + 1, done as int);
                    lemma_rest_keeps_count(text@, i + 1);
                }
                return false;
            }
            if digits == 0 {
                leading_zero = c == '0';
            }
            value = grown;
            digits = digits + 1;
            proof {
                assert forall|k: int| 0 <= k < done implies is_octet(
                    #[trigger] fields(after)[k],
                ) by {
                    assert(fields(after)[k] == fields(before)[k]);
                }
                assert forall|k: int| 0 <= k < field.len() implies is_digit(
                    #[trigger] field[k],
                ) by {
                    if k < field.len() - 1 {
                        assert(field[k] == fields(before).last()[k]);
                    }
                }
            }
        }
        i = i + 1;
    }
    proof {
        assert(text@.take(len as int) == text@);
    }
    done == 3 && digits > 0
}

/// Reading on never takes a field away: a text has at least as many fields
/// as any of its beginnings.
pub proof fn lemma_rest_keeps_count(text: Seq<char>, n: int)
    requires
        0 <= n <= text.len(),
    ensures
        fields(text).len() >= fields(text.take(n)).len(),
    decreases text.len() - n,
{
    if n < text.len() {
        lemma_rest_keeps_count(text, n + 1);
        assert(text.take(n + 1).drop_last() == text.take(n));
        lemma_fields_len(text.take(n));
    } else {
        assert(text.take(n) == text);
    }
}

/// Reading on leaves a field alone once a dot has closed it.
pub proof fn lemma_rest_keeps_fields(text: Seq<char>, n: int, k: int)
    requires
        0 <= n <= text.len(),
        0 <= k < fields(text.take(n)).len() - 1,
    ensures
        k < fields(text).len() - 1,
        fields(text)[k] == fields(text.take(n))[k],
    decreases text.len() - n,
{
    if n < text.len() {
        assert(text.take(n + 1).drop_last() == text.take(n));
        lemma_fields_len(text.take(n));
        lemma_rest_keeps_fields(text, n + 1, k);
    } else {
        assert(text.take(n) == text);
    }
}

/// A field that is no byte as far as it was read stays none however the
/// text goes on: it is closed as it stands, or grows by what is no digit, or
/// by another digit.
pub proof fn lemma_grown_field_is_no_octet(text: Seq<char>, n: int, k: int)
    requires
        0 <= n <= text.len(),
        k == fields(text.take(n)).len() - 1,
        fields(text.take(n))[k].len() > 0,
        !is_octet(fields(text.take(n))[k]),
    ensures
        k < fields(text).len(),
        !is_octet(fields(text)[k]),
    decreases text.len() - n,
{
    if n < text.len() {
        let before = text.take(n);
        let after = text.take(n + 1);
        assert(after.drop_last() == before);
        lemma_fields_len(before);
        if text[n] == '.' {
            assert(after.last() == '.');
            lemma_rest_keeps_fields(text, n + 1, k);
        } else {
            let field = fields(before)[k];
            let grown = field.push(text[n]);
            assert(fields(after)[k] == grown);
            assert(grown.drop_last() == field);
            assert(!is_octet(grown)) by {
                if is_octet(grown) {
                    assert forall|j: int| 0 <= j < field.len() implies is_digit(
                        #[trigger] field[j],
                    ) by {
                        assert(field[j] == grown[j]);
                    }
                    assert(field[0] == grown[0]);
                    assert(number(field) <= number(grown));
                }
            }
            lemma_grown_field_is_no_octet(text, n + 1, k);
        }
    } else {
        assert(text.take(n) == text);
    }
}

} // verus!
