//! Choosing the authority whose password a `change-password` request names.
use crate::text::{
    eq_ignore_ascii_case, is_ascii_letter, law_eq_ignore_ascii_case_characters,
    law_eq_ignore_ascii_case_equivalence, law_eq_ignore_ascii_case_without_letters,
    str_eq_ignore_ascii_case,
};
use vstd::prelude::*;

verus! {

/// An authority answers to `wanted` when the naming table gives it a name
/// equal to `wanted` without regard to the case of ASCII letters.
pub open spec fn answers_to(name: Option<String>, wanted: Seq<char>) -> bool {
    match name {
        Some(n) => eq_ignore_ascii_case(n@, wanted),
        None => false,
    }
}

/// Given the names of the password authorities in the order the device
/// lists them (`None` for an authority the naming table does not know), the
/// position of the first that answers to `wanted`, or `None` when none does.
pub fn find_authority(names: &Vec<Option<String>>, wanted: &str) -> (r: Option<usize>)
    ensures
        match r {
            Some(i) => {
                &&& i < names@.len()
                &&& answers_to(names@[i as int], wanted@)
                &&& forall|j: int| 0 <= j < i ==> !answers_to(#[trigger] names@[j], wanted@)
            },
            None => forall|j: int|
                0 <= j < names@.len() ==> !answers_to(#[trigger] names@[j], wanted@),
        },
{
    let n = names.len();
    let mut i: usize = 0;
    while i < n
        invariant
            n == names@.len(),
            i <= n,
            forall|j: int| 0 <= j < i ==> !answers_to(#[trigger] names@[j], wanted@),
        decreases n - i,
    {
        let matched = match &names[i] {
            Some(name) => str_eq_ignore_ascii_case(name.as_str(), wanted),
            None => false,
        };
        if matched {
            return Some(i);
        }
        i = i + 1;
    }
    None
}

/// Law: which authority a name picks does not depend on the case of the
/// name's ASCII letters.
pub proof fn law_authority_match_ignores_ascii_case(
    name: Option<String>,
    wanted: Seq<char>,
    other: Seq<char>,
)
    requires
        eq_ignore_ascii_case(wanted, other),
    ensures
        answers_to(name, wanted) == answers_to(name, other),
{
    if let Some(n) = name {
        law_eq_ignore_ascii_case_equivalence(n@, wanted, other);
        law_eq_ignore_ascii_case_equivalence(n@, other, wanted);
        law_eq_ignore_ascii_case_equivalence(wanted, other, other);
    }
}

/// Law: an authority without a name never answers; a named one answers to
/// its own name, only to names of the same length, and, for a wanted name
/// without ASCII letters, only to exactly that name (so `Admin1` does not
/// answer to `Admin2`).
pub proof fn law_answers_to(name: Option<String>, wanted: Seq<char>)
    ensures
        name is None ==> !answers_to(name, wanted),
        name matches Some(n) ==> (n@ == wanted ==> answers_to(name, wanted)),
        name matches Some(n) ==> (answers_to(name, wanted) ==> n@.len() == wanted.len()),
        name matches Some(n) ==> ((forall|i: int|
            0 <= i < wanted.len() ==> !is_ascii_letter(#[trigger] wanted[i])) ==> (answers_to(
            name,
            wanted,
        ) <==> n@ == wanted)),
{
    if let Some(n) = name {
        law_eq_ignore_ascii_case_equivalence(n@, wanted, wanted);
        law_eq_ignore_ascii_case_equivalence(wanted, n@, n@);
        if answers_to(name, wanted) {
            law_eq_ignore_ascii_case_characters(n@, wanted, 0);
        }
        if forall|i: int| 0 <= i < wanted.len() ==> !is_ascii_letter(#[trigger] wanted[i]) {
            law_eq_ignore_ascii_case_without_letters(wanted, n@);
        }
    }
}

/// Law: two names that differ at a position where the wanted name has no
/// ASCII letter cannot both answer to it.
pub proof fn law_answers_to_distinguishes_non_letters(n: String, wanted: Seq<char>, i: int)
    requires
        0 <= i < wanted.len(),
        !is_ascii_letter(wanted[i]),
        i < n@.len(),
        n@[i] != wanted[i],
    ensures
        !answers_to(Some(n), wanted),
{
    if answers_to(Some(n), wanted) {
        law_eq_ignore_ascii_case_equivalence(n@, wanted, wanted);
        law_eq_ignore_ascii_case_characters(wanted, n@, i);
    }
}

} // verus!
