use vstd::prelude::*;
use crate::models::DailyTodo;
use crate::models::time::chrono_date_text;
use crate::text::{concat_all, lemma_concat_all_take_next, list_item};

verus! {

/// The list items of the daily to-do page: each entry's date.
pub open spec fn daily_todo_items(todos: Seq<DailyTodo>) -> Seq<Seq<char>> {
    todos.map_values(|t: DailyTodo| list_item(chrono_date_text(t.date@)))
}

/// The daily to-do page: one list item per entry, holding its date.
pub fn daily_todos_html(daily_todos: &Vec<DailyTodo>) -> (html: String)
    ensures
        html@ == concat_all(daily_todo_items(daily_todos@)),
{
    let ghost items = daily_todo_items(daily_todos@);
    let mut html = String::new();
    for i in 0..daily_todos.len()
        invariant
            items == daily_todo_items(daily_todos@),
            html@ == concat_all(items.take(i as int)),
    {
        proof {
            lemma_concat_all_take_next(items, i as int);
        }
        let date = daily_todos[i].date.to_text();
        html.append("<li>");
        html.append(date.as_str());
        html.append("</li>");
        assert(html@ =~= concat_all(items.take(i as int)) + items[i as int]);
    }
    assert(items.take(daily_todos@.len() as int) =~= items);
    html
}

} // verus!
