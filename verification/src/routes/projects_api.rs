use vstd::prelude::*;
use crate::models::Project;
use crate::text::{concat_all, lemma_concat_all_take_next, list_item};

verus! {

/// How a project's description shows on the projects page: `None` when it
/// has none.
pub open spec fn shown_description(description: Option<String>) -> Seq<char> {
    match description {
        Some(d) => d@,
        None => "None"@,
    }
}

/// The list items of the projects page: each project's title and
/// description.
pub open spec fn project_items(projects: Seq<Project>) -> Seq<Seq<char>> {
    projects.map_values(
        |p: Project| list_item(p.title@ + ": "@ + shown_description(p.description)),
    )
}

/// The projects page: one list item per project, `title: description`.
pub fn projects_html(projects: &Vec<Project>) -> (html: String)
    ensures
        html@ == concat_all(project_items(projects@)),
{
    let ghost items = project_items(projects@);
    let mut html = String::new();
    for i in 0..projects.len()
        invariant
            items == project_items(projects@),
            html@ == concat_all(items.take(i as int)),
    {
        proof {
            lemma_concat_all_take_next(items, i as int);
        }
        let project = &projects[i];
        html.append("<li>");
        html.append(project.title.as_str());
        html.append(": ");
        match &project.description {
            Some(d) => html.append(d.as_str()),
            None => html.append("None"),
        }
        html.append("</li>");
        assert(html@ =~= concat_all(items.take(i as int)) + items[i as int]);
    }
    assert(items.take(projects@.len() as int) =~= items);
    html
}

} // verus!
