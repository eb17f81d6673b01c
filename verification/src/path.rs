//! The rule by which a directory enters the user's persistent `PATH`.

use vstd::prelude::*;
use crate::text::{cat3, is_entry, list_has, lists, same_ignoring_case};

verus! {

/// The value `current` with `dir` as a further entry at its end: a `;`
/// comes between them unless `current` is empty or already ends in one.
pub open spec fn appended(current: Seq<char>, dir: Seq<char>) -> Seq<char> {
    if current.len() == 0 || current.last() == ';' {
        current + dir
    } else {
        current + seq![';'] + dir
    }
}

/// The value to store so that `PATH`, now `current`, lists `dir`: none
/// where `current` lists it already, whatever the case of its letters.
pub open spec fn addition(current: Seq<char>, dir: Seq<char>) -> Option<Seq<char>> {
    if lists(current, dir) {
        None
    } else {
        Some(appended(current, dir))
    }
}

/// The value that `PATH` has once `dir` was added to `current`.
pub open spec fn updated(current: Seq<char>, dir: Seq<char>) -> Seq<char> {
    match addition(current, dir) {
        Some(value) => value,
        None => current,
    }
}

/// What is said where `PATH` lists `dir` already.
pub open spec fn listed_notice(dir: Seq<char>) -> Seq<char> {
    "Ya en PATH: "@ + dir + "\n"@
}

/// What is said once `dir` was added to `PATH`: the change shows in
/// terminals opened from then on.
pub open spec fn added_notice(dir: Seq<char>) -> Seq<char> {
    "Añadido al PATH de usuario: "@ + dir + "\nCierra y abre terminal para aplicar\n"@
}

/// Whether `dir` can stand as a single entry of a `;`-separated list.
pub open spec fn is_single_entry(dir: Seq<char>) -> bool {
    forall|k: int| 0 <= k < dir.len() ==> #[trigger] dir[k] != ';'
}

/// Decides what adding `dir` to the `PATH` value `current` takes: nothing
/// where `current` lists `dir` already, whatever the case of its letters;
/// else the new value to store.
pub fn add_to_user_path(current: &str, dir: &str) -> (r: Option<String>)
    ensures
        r.deep_view() == addition(current@, dir@),
{
    if list_has(current, dir) {
        return None;
    }
    let mut value = String::from_str(current);
    let n = current.unicode_len();
    if !(n == 0 || current.get_char(n - 1) == ';') {
        proof {
            reveal_strlit(";");
        }
        value.append(";");
    }
    value.append(dir);
    Some(value)
}

/// What is said where `PATH` lists `dir` already.
pub fn listed_text(dir: &str) -> (r: String)
    ensures
        r@ == listed_notice(dir@),
{
    cat3("Ya en PATH: ", dir, "\n")
}

/// What is said once `dir` was added to `PATH`.
pub fn added_text(dir: &str) -> (r: String)
    ensures
        r@ == added_notice(dir@),
{
    cat3("Añadido al PATH de usuario: ", dir, "\nCierra y abre terminal para aplicar\n")
}

/// Letter case aside, sameness of texts is symmetric and transitive.
pub proof fn lemma_same_ignoring_case_is_equivalence(a: Seq<char>, b: Seq<char>, c: Seq<char>)
    ensures
        same_ignoring_case(a, a),
        same_ignoring_case(a, b) ==> same_ignoring_case(b, a),
        same_ignoring_case(a, b) && same_ignoring_case(b, c) ==> same_ignoring_case(a, c),
{
}

/// A directory that was appended is listed afterwards, also under another
/// spelling of its letters' case.
pub proof fn lemma_appended_is_listed(current: Seq<char>, dir: Seq<char>, again: Seq<char>)
    requires
        is_single_entry(dir),
        same_ignoring_case(dir, again),
    ensures
        lists(appended(current, dir), again),
{
    let value = appended(current, dir);
    assert(is_entry(value, value.len() - dir.len(), value.len() as int));
}

/// Adding a directory a second time changes nothing, whatever the case of
/// its letters the second time.
pub proof fn lemma_update_is_idempotent(current: Seq<char>, dir: Seq<char>, again: Seq<char>)
    requires
        is_single_entry(dir),
        same_ignoring_case(dir, again),
    ensures
        updated(updated(current, dir), again) == updated(current, dir),
{
    if lists(current, dir) {
        let (lo, hi) = choose|lo: int, hi: int| #[trigger]
            is_entry(current, lo, hi) && same_ignoring_case(current.subrange(lo, hi), dir);
        lemma_same_ignoring_case_is_equivalence(current.subrange(lo, hi), dir, again);
    } else {
        lemma_appended_is_listed(current, dir, again);
    }
}

/// An update keeps what `PATH` held, in its order, and where it adds the
/// directory it adds it at the end.
pub proof fn lemma_update_extends(current: Seq<char>, dir: Seq<char>)
    ensures
        updated(current, dir).len() >= current.len(),
        updated(current, dir).subrange(0, current.len() as int) == current,
        !lists(current, dir) ==> updated(current, dir).len() >= dir.len() && updated(
            current,
            dir,
        ).subrange(updated(current, dir).len() - dir.len(), updated(current, dir).len() as int)
            == dir,
{
}

} // verus!
