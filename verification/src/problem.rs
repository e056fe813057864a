//! Guessing a problem id from a file or directory name: a one-letter name
//! stands for the problem with that letter's place in the alphabet.

use vstd::prelude::*;

use crate::text::{decimal, decimal_string, digits_value, is_digit, lemma_decimal_is_base_ten};

verus! {

/// The place of an ASCII letter in the alphabet, counting from 1, with
/// upper and lower case alike; `None` for any other character.
pub open spec fn letter_order(c: char) -> Option<nat> {
    if 'A' <= c && c <= 'Z' {
        Some((c as nat - 'A' as nat + 1) as nat)
    } else if 'a' <= c && c <= 'z' {
        Some((c as nat - 'a' as nat + 1) as nat)
    } else {
        None
    }
}

/// The problem id that a name stands for: a name of a single ASCII letter
/// gives that letter's place in the alphabet, in decimal.
pub open spec fn problem_id_of_name(name: Seq<char>) -> Option<Seq<char>> {
    if name.len() == 1 {
        match letter_order(name[0]) {
            Some(k) => Some(decimal(k)),
            None => None,
        }
    } else {
        None
    }
}

/// The problem id of an optional name.
pub open spec fn problem_id_of_stem(stem: Option<Seq<char>>) -> Option<Seq<char>> {
    match stem {
        Some(name) => problem_id_of_name(name),
        None => None,
    }
}

/// The view of an optional string.
pub open spec fn opt_view(s: Option<String>) -> Option<Seq<char>> {
    match s {
        Some(t) => Some(t@),
        None => None,
    }
}

/// The view of an optional string slice.
pub open spec fn opt_str_view(s: Option<&str>) -> Option<Seq<char>> {
    match s {
        Some(t) => Some(t@),
        None => None,
    }
}

/// Guesses the problem id that a file or directory name stands for.
pub fn get_problem_id_from_filename(name: &str) -> (res: Option<String>)
    ensures
        opt_view(res) == problem_id_of_name(name@),
{
    if name.unicode_len() != 1 {
        return None;
    }
    let c = name.get_char(0);
    let order: u32 = if 'A' <= c && c <= 'Z' {
        c as u32 - 'A' as u32 + 1
    } else if 'a' <= c && c <= 'z' {
        c as u32 - 'a' as u32 + 1
    } else {
        return None;
    };
    Some(decimal_string(order))
}

/// Upper and lower case of a letter stand for the same problem.
pub proof fn lemma_letter_case_alike(lower: char, upper: char)
    requires
        'a' <= lower <= 'z',
        upper as nat == lower as nat - 32,
    ensures
        problem_id_of_name(seq![upper]) == problem_id_of_name(seq![lower]),
        problem_id_of_name(seq![lower]) is Some,
{
}

/// A guessed problem id is the decimal rendering of a number from 1 to 26.
pub proof fn lemma_problem_id_range(name: Seq<char>)
    requires
        problem_id_of_name(name) is Some,
    ensures
        exists|k: nat| 1 <= k <= 26 && problem_id_of_name(name) == Some(decimal(k)),
{
    let k = letter_order(name[0])->0;
    assert(1 <= k <= 26 && problem_id_of_name(name) == Some(decimal(k)));
}

/// A one-letter name stands for that letter's place in the alphabet: `a`
/// and `A` for 1, `h` and `H` for 8, ..., `z` and `Z` for 26, written in
/// decimal digits without a leading zero.
pub proof fn lemma_letter_stands_for_its_place(c: char)
    requires
        ('a' <= c && c <= 'z') || ('A' <= c && c <= 'Z'),
    ensures
        problem_id_of_name(seq![c]) matches Some(id) && {
            &&& digits_value(id) == if 'a' <= c {
                c as int - 'a' as int + 1
            } else {
                c as int - 'A' as int + 1
            }
            &&& forall|i: int| 0 <= i < id.len() ==> is_digit(#[trigger] id[i])
            &&& id.len() > 0 && id[0] != '0'
        },
{
    let k = letter_order(c)->0;
    lemma_decimal_is_base_ten(k);
}

/// Only one-letter names stand for a problem.
pub proof fn lemma_only_letters_stand_for_problems(name: Seq<char>)
    requires
        name.len() != 1 || !(('a' <= name[0] && name[0] <= 'z') || ('A' <= name[0] && name[0]
            <= 'Z')),
    ensures
        problem_id_of_name(name) is None,
{
}

} // verus!
