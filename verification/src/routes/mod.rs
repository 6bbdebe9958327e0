//! What the web routes decide and the pages they build; the routes
//! themselves, which read requests and the database, are the application's.

pub mod daily_todo_api;
pub mod gpt_api;
pub mod navigation;
pub mod projects_api;
pub mod tasks_api;
pub mod rewards_api;

use vstd::prelude::*;
use crate::text::{decimal_text, decimal_value, is_digit_char, lemma_decimal_text_read_back, lemma_digits_read_back, push_decimal};

verus! {

/// The reply text after deleting the record of kind `kind` with id `id`.
pub open spec fn deleted_text(kind: Seq<char>, id: int) -> Seq<char> {
    kind + " "@ + decimal_text(id) + " deleted"@
}

/// The reply after a deletion reads as the kind, a space, the id in decimal
/// and ` deleted`: the text between the kind's space and ` deleted` is the
/// id's digits, after a minus sign for a negative id, and reads back as it.
pub proof fn lemma_deleted_text_names_id(kind: Seq<char>, id: int)
    ensures
        ({
            let t = deleted_text(kind, id);
            let middle = t.subrange(kind.len() + 1int, t.len() - 8);
            &&& t.take(kind.len() as int) == kind
            &&& t[kind.len() as int] == ' '
            &&& t.skip(t.len() - 8) == " deleted"@
            &&& middle == decimal_text(id)
            &&& id >= 0 ==> decimal_value(middle) == id
                && forall|i: int| 0 <= i < middle.len() ==> is_digit_char(#[trigger] middle[i])
            &&& id < 0 ==> middle[0] == '-' && decimal_value(middle.skip(1)) == -id
        }),
{
    reveal_strlit(" ");
    reveal_strlit(" deleted");
    let t = deleted_text(kind, id);
    let d = decimal_text(id);
    assert(t =~= kind + seq![' '] + d + " deleted"@);
    assert(t.take(kind.len() as int) =~= kind);
    assert(t.skip(t.len() - 8) =~= " deleted"@);
    assert(t.subrange(kind.len() + 1int, t.len() - 8) =~= d);
    lemma_decimal_text_read_back(id);
    if id >= 0 {
        lemma_digits_read_back(id as nat);
    }
}

/// The reply text after deleting a record: its kind (`Task`, `Goal`,
/// `Project`, `Reward`, `User`, `Daily todo`), its id and `deleted`.
pub fn deleted_message(kind: &str, id: i32) -> (message: String)
    ensures
        message@ == deleted_text(kind@, id as int),
{
    let mut message = kind.to_owned();
    message.append(" ");
    push_decimal(&mut message, id);
    message.append(" deleted");
    message
}

} // verus!
