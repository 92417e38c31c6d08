//! Verified text utilities: splitting a comma-separated credential
//! list, reading a decimal number, and printing one.

use vstd::prelude::*;

verus! {

/// Relies on `str::chars`: the iterator yields exactly the characters
/// of the string, in order.
#[verifier::external_body]
pub(crate) fn chars_of(s: &String) -> (r: Vec<char>)
    ensures
        r@ == s@,
{
    s.chars().collect()
}

/// Relies on `String`'s `FromIterator<char>`: collecting characters
/// builds the string of exactly those characters, in order.
#[verifier::external_body]
pub(crate) fn string_from_chars(cs: &Vec<char>) -> (r: String)
    ensures
        r@ == cs@,
{
    cs.iter().collect()
}

/// The string that a sequence of pieces joins to with a comma between
/// each pair of neighbours. `split_commas` is its exact inverse: it
/// returns the unique comma-free pieces that join back to the input.
pub open spec fn join_commas(pieces: Seq<Seq<char>>) -> Seq<char>
    decreases pieces.len(),
{
    if pieces.len() == 0 {
        Seq::empty()
    } else if pieces.len() == 1 {
        pieces[0]
    } else {
        pieces[0] + seq![','] + join_commas(pieces.drop_first())
    }
}

proof fn lemma_join_push_piece(pieces: Seq<Seq<char>>, p: Seq<char>)
    requires
        pieces.len() >= 1,
    ensures
        join_commas(pieces.push(p)) == join_commas(pieces) + seq![','] + p,
    decreases pieces.len(),
{
    if pieces.len() == 1 {
        assert(pieces.push(p).drop_first() =~= seq![p]);
        assert(join_commas(seq![p]) == seq![p][0]);
        assert(join_commas(pieces.push(p)) =~= pieces[0] + seq![','] + p);
    } else {
        lemma_join_push_piece(pieces.drop_first(), p);
        assert(pieces.push(p).drop_first() =~= pieces.drop_first().push(p));
        assert(join_commas(pieces) + seq![','] + p
            =~= pieces[0] + seq![','] + (join_commas(pieces.drop_first()) + seq![','] + p));
    }
}

proof fn lemma_join_extend_last(pieces: Seq<Seq<char>>, c: char)
    requires
        pieces.len() >= 1,
    ensures
        join_commas(pieces.update(pieces.len() - 1, pieces.last().push(c)))
            == join_commas(pieces).push(c),
    decreases pieces.len(),
{
    if pieces.len() == 1 {
        assert(pieces.update(pieces.len() - 1, pieces.last().push(c)) =~= seq![pieces[0].push(c)]);
    } else {
        lemma_join_extend_last(pieces.drop_first(), c);
        let updated = pieces.update(pieces.len() - 1, pieces.last().push(c));
        assert(updated.drop_first() =~= pieces.drop_first().update(pieces.drop_first().len() - 1, pieces.drop_first().last().push(c)));
        assert(join_commas(updated)
            =~= join_commas(pieces).push(c));
    }
}

/// The sequences of characters of a sequence of strings.
pub open spec fn views_of(pieces: Seq<String>) -> Seq<Seq<char>> {
    pieces.map_values(|p: String| p@)
}

/// Splits a character sequence at every comma. The result is the
/// unique decomposition into comma-free pieces that `join_commas`
/// takes back to the input; splitting a non-empty input never yields
/// an empty piece list.
pub fn split_commas(s: &Vec<char>) -> (r: Vec<String>)
    ensures
        r@.len() >= 1,
        forall|i: int| 0 <= i < r@.len() ==> !(#[trigger] r@[i])@.contains(','),
        join_commas(views_of(r@)) == s@,
{
    let mut pieces: Vec<String> = Vec::new();
    let mut current: Vec<char> = Vec::new();
    let mut i: usize = 0;
    while i < s.len()
        invariant
            i <= s@.len(),
            forall|j: int| 0 <= j < pieces@.len() ==> !(#[trigger] pieces@[j])@.contains(','),
            !current@.contains(','),
            join_commas(views_of(pieces@).push(current@)) == s@.take(i as int),
        decreases s@.len() - i,
    {
        let c = s[i];
        let ghost pieces0 = pieces@;
        let ghost current0 = current@;
        proof {
            assert(s@.take(i + 1) =~= s@.take(i as int).push(s@[i as int]));
        }
        if c == ',' {
            let piece = string_from_chars(&current);
            pieces.push(piece);
            current = Vec::new();
            proof {
                lemma_join_push_piece(views_of(pieces0).push(current0), Seq::empty());
                assert(views_of(pieces@).push(current@)
                    =~= views_of(pieces0).push(current0).push(Seq::empty()));
                assert(join_commas(views_of(pieces@).push(current@)) =~= s@.take(i + 1));
            }
        } else {
            current.push(c);
            proof {
                let ps = views_of(pieces0).push(current0);
                lemma_join_extend_last(ps, c);
                assert(ps.update(ps.len() - 1, ps.last().push(c))
                    =~= views_of(pieces@).push(current@));
            }
        }
        i += 1;
    }
    let ghost pieces1 = pieces@;
    let piece = string_from_chars(&current);
    pieces.push(piece);
    proof {
        assert(s@.take(s@.len() as int) =~= s@);
        assert(views_of(pieces@) =~= views_of(pieces1).push(current@));
    }
    pieces
}

/// Whether `c` is a decimal digit.
pub open spec fn is_digit(c: char) -> bool {
    48 <= c as u32 && c as u32 <= 57
}

/// The value of one decimal digit character.
pub open spec fn digit_val(c: char) -> nat {
    (c as u32 - 48) as nat
}

/// Whether every character of `s` is a decimal digit.
pub open spec fn all_digits(s: Seq<char>) -> bool {
    forall|i: int| 0 <= i < s.len() ==> is_digit(#[trigger] s[i])
}

/// The number that a sequence of decimal digits denotes.
pub open spec fn dec_val(s: Seq<char>) -> nat
    decreases s.len(),
{
    if s.len() == 0 {
        0
    } else {
        dec_val(s.drop_last()) * 10 + digit_val(s.last())
    }
}

proof fn lemma_dec_val_prefix_le(s: Seq<char>, j: int)
    requires
        0 <= j <= s.len(),
    ensures
        dec_val(s.take(j)) <= dec_val(s),
    decreases s.len(),
{
    if j < s.len() {
        assert(s.drop_last().take(j) =~= s.take(j));
        lemma_dec_val_prefix_le(s.drop_last(), j);
        assert(dec_val(s.drop_last()) * 10 >= dec_val(s.drop_last()));
    } else {
        assert(s.take(j) =~= s);
    }
}

/// Reads a base-ten number: `Some` exactly when the input is non-empty,
/// all digits, and the value fits a `u64`; the value read is the number
/// the digits denote.
pub fn parse_u64(s: &Vec<char>) -> (r: Option<u64>)
    ensures
        (r is Some) == (s@.len() > 0 && all_digits(s@) && dec_val(s@) <= u64::MAX),
        r matches Some(v) ==> v == dec_val(s@),
{
    if s.len() == 0 {
        return None;
    }
    let mut acc: u64 = 0;
    let mut i: usize = 0;
    while i < s.len()
        invariant
            0 < s@.len(),
            i <= s@.len(),
            all_digits(s@.take(i as int)),
            acc == dec_val(s@.take(i as int)),
        decreases s@.len() - i,
    {
        let c = s[i];
        let code = c as u32;
        proof {
            assert(s@.take(i + 1) =~= s@.take(i as int).push(s@[i as int]));
            assert(s@.take(i + 1).drop_last() =~= s@.take(i as int));
        }
        if code < 48 || code > 57 {
            proof {
                assert(!is_digit(s@[i as int]));
            }
            return None;
        }
        let d: u64 = (code - 48) as u64;
        let shifted = match acc.checked_mul(10) {
            Some(v) => v,
            None => {
                proof {
                    assert(dec_val(s@.take(i + 1)) > u64::MAX);
                    lemma_dec_val_prefix_le(s@, i + 1);
                }
                return None;
            },
        };
        acc = match shifted.checked_add(d) {
            Some(v) => v,
            None => {
                proof {
                    assert(dec_val(s@.take(i + 1)) > u64::MAX);
                    lemma_dec_val_prefix_le(s@, i + 1);
                }
                return None;
            },
        };
        i += 1;
    }
    proof {
        assert(s@.take(s@.len() as int) =~= s@);
    }
    Some(acc)
}

/// The digit character of one decimal digit.
pub open spec fn digit_char(d: nat) -> char {
    if d == 0 { '0' }
    else if d == 1 { '1' }
    else if d == 2 { '2' }
    else if d == 3 { '3' }
    else if d == 4 { '4' }
    else if d == 5 { '5' }
    else if d == 6 { '6' }
    else if d == 7 { '7' }
    else if d == 8 { '8' }
    else { '9' }
}

/// The base-ten digit characters of a number, most significant first.
pub open spec fn dec_chars(n: nat) -> Seq<char>
    decreases n,
{
    if n < 10 {
        seq![digit_char(n)]
    } else {
        dec_chars(n / 10).push(digit_char(n % 10))
    }
}

fn digit_char_exec(d: u64) -> (c: char)
    requires
        d < 10,
    ensures
        c == digit_char(d as nat),
{
    if d == 0 { '0' }
    else if d == 1 { '1' }
    else if d == 2 { '2' }
    else if d == 3 { '3' }
    else if d == 4 { '4' }
    else if d == 5 { '5' }
    else if d == 6 { '6' }
    else if d == 7 { '7' }
    else if d == 8 { '8' }
    else { '9' }
}

/// Prints a number in base ten, most significant digit first.
pub fn u64_to_dec(n: u64) -> (r: Vec<char>)
    ensures
        r@ == dec_chars(n as nat),
    decreases n,
{
    if n < 10 {
        let mut v: Vec<char> = Vec::new();
        v.push(digit_char_exec(n));
        v
    } else {
        let mut v = u64_to_dec(n / 10);
        v.push(digit_char_exec(n % 10));
        v
    }
}

proof fn lemma_digit_char_val(d: nat)
    requires
        d < 10,
    ensures
        is_digit(digit_char(d)),
        digit_val(digit_char(d)) == d,
{
}

proof fn lemma_dec_chars_digits_val(n: nat)
    ensures
        all_digits(dec_chars(n)),
        dec_val(dec_chars(n)) == n,
    decreases n,
{
    if n < 10 {
        lemma_digit_char_val(n);
        assert(dec_chars(n) == seq![digit_char(n)]);
        assert(seq![digit_char(n)].drop_last() =~= Seq::<char>::empty());
        assert(dec_val(Seq::<char>::empty()) == 0);
        assert(dec_val(seq![digit_char(n)]) == dec_val(Seq::<char>::empty()) * 10 + digit_val(digit_char(n)));
    } else {
        lemma_dec_chars_digits_val(n / 10);
        lemma_digit_char_val(n % 10);
        let s = dec_chars(n);
        assert(s.drop_last() =~= dec_chars(n / 10));
        assert(s.last() == digit_char(n % 10));
        assert(dec_val(s) == (n / 10) * 10 + (n % 10));
        assert((n / 10) * 10 + (n % 10) == n) by {
            vstd::arithmetic::div_mod::lemma_fundamental_div_mod(n as int, 10);
        }
        assert forall|i: int| 0 <= i < s.len() implies is_digit(#[trigger] s[i]) by {
            if i < s.len() - 1 {
                assert(s[i] == dec_chars(n / 10)[i]);
            }
        }
    }
}

/// Printing a number and reading it back returns the number: the
/// decimal digits of any `u64` are all digits, denote that same value,
/// and so parse back to it.
pub proof fn lemma_dec_round_trip(n: u64)
    ensures
        all_digits(dec_chars(n as nat)),
        dec_chars(n as nat).len() > 0,
        dec_val(dec_chars(n as nat)) == n,
{
    lemma_dec_chars_digits_val(n as nat);
}

} // verus!
