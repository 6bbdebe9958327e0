//! The decisions of the browser-facing pages: who may see them, what the
//! dashboard lists, what the autocomplete box searches for, and how a login
//! is answered.

use vstd::prelude::*;
use crate::models::Task;
use crate::text::{push_char, str_equal};

verus! {

// ---------------------------------------------------------------- sessions

/// What a page does with the user name that the session holds.
#[derive(Debug, Clone, PartialEq)]
pub enum SessionGate {
    /// Show the page for this user name.
    Proceed(String),
    /// Send the browser to the login page (`./login`).
    RedirectToLogin,
    /// The session could not be read: answer with a server error.
    SessionError,
}

/// The dashboard's gate: a logged-in user proceeds, a session without user
/// goes to the login page, and an unreadable session is a server error.
pub fn dashboard_gate(session_user: Result<Option<String>, ()>) -> (gate: SessionGate)
    ensures
        match session_user {
            Ok(Some(name)) => gate == SessionGate::Proceed(name),
            Ok(None) => gate == SessionGate::RedirectToLogin,
            Err(_) => gate == SessionGate::SessionError,
        },
{
    match session_user {
        Ok(Some(name)) => SessionGate::Proceed(name),
        Ok(None) => SessionGate::RedirectToLogin,
        Err(_) => SessionGate::SessionError,
    }
}

/// Where a logged-in user may see the timer page, and how the user of a
/// session is found: a logged-in user proceeds; anything else goes to the
/// login page.
pub fn time_tracker_gate(session_user: Result<Option<String>, ()>) -> (gate: SessionGate)
    ensures
        match session_user {
            Ok(Some(name)) => gate == SessionGate::Proceed(name),
            _ => gate == SessionGate::RedirectToLogin,
        },
{
    match session_user {
        Ok(Some(name)) => SessionGate::Proceed(name),
        _ => SessionGate::RedirectToLogin,
    }
}

// --------------------------------------------------------------- dashboard

/// Whether a task still shows on the dashboard: its status is not
/// `completed`.
pub open spec fn is_active(task: Task) -> bool {
    task.status->0@ != "completed"@
}

/// The tasks of `tasks` that are not completed, in their order.
pub open spec fn active_of(tasks: Seq<Task>) -> Seq<Task>
    decreases tasks.len(),
{
    if tasks.len() == 0 {
        seq![]
    } else if is_active(tasks.last()) {
        active_of(tasks.drop_last()).push(tasks.last())
    } else {
        active_of(tasks.drop_last())
    }
}

/// The dashboard's tasks: those that are not completed, in their order.
/// Every task must carry a status; one without is refused by a panic.
pub fn active_tasks(tasks: Vec<Task>) -> (active: Vec<Task>)
    requires
        forall|i: int| 0 <= i < tasks@.len() ==> (#[trigger] tasks@[i]).status is Some,
    ensures
        active@ == active_of(tasks@),
{
    let ghost all = tasks@;
    let mut rest = tasks;
    let mut active: Vec<Task> = Vec::new();
    let ghost mut done: int = 0;
    while rest.len() > 0
        invariant
            0 <= done <= all.len(),
            rest@ == all.skip(done),
            active@ == active_of(all.take(done)),
            forall|i: int| 0 <= i < all.len() ==> (#[trigger] all[i]).status is Some,
        decreases rest@.len(),
    {
        let task = rest.remove(0);
        proof {
            assert(all.take(done + 1).drop_last() =~= all.take(done));
            assert(all[done] == task);
        }
        let completed = match &task.status {
            Some(s) => str_equal(s.as_str(), "completed"),
            None => false,
        };
        if !completed {
            active.push(task);
        }
        proof {
            done = done + 1;
            assert(rest@ =~= all.skip(done));
        }
    }
    assert(all.take(done) =~= all);
    active
}

/// Filtering again keeps every task that the dashboard already shows.
pub proof fn lemma_active_of_idempotent(tasks: Seq<Task>)
    ensures
        active_of(active_of(tasks)) == active_of(tasks),
    decreases tasks.len(),
{
    if tasks.len() > 0 {
        lemma_active_of_idempotent(tasks.drop_last());
        if is_active(tasks.last()) {
            let a = active_of(tasks.drop_last());
            assert(a.push(tasks.last()).drop_last() =~= a);
        }
    }
}

/// Every task that the dashboard shows is not completed.
pub proof fn lemma_active_of_all_active(tasks: Seq<Task>)
    ensures
        forall|i: int| 0 <= i < active_of(tasks).len() ==> is_active(#[trigger] active_of(tasks)[i]),
    decreases tasks.len(),
{
    if tasks.len() > 0 {
        lemma_active_of_all_active(tasks.drop_last());
        let earlier = active_of(tasks.drop_last());
        if is_active(tasks.last()) {
            let kept = earlier.push(tasks.last());
            assert forall|i: int| 0 <= i < kept.len() implies is_active(#[trigger] kept[i]) by {
                if i < earlier.len() {
                    assert(kept[i] == earlier[i]);
                }
            }
        }
    }
}

/// A task alone is shown on the dashboard exactly when its status text is
/// not `completed`, whatever its other fields.
pub proof fn lemma_active_of_single(t: Task)
    ensures
        (active_of(seq![t]) == seq![t]) <==> t.status->0@ != "completed"@,
        (active_of(seq![t]) == Seq::<Task>::empty()) <==> t.status->0@ == "completed"@,
{
    let one = seq![t];
    assert(one.drop_last() =~= Seq::<Task>::empty());
    assert(one.last() == t);
    assert(active_of(Seq::<Task>::empty()) =~= Seq::<Task>::empty());
    assert(active_of(one.drop_last()) =~= Seq::<Task>::empty());
    assert(Seq::<Task>::empty().push(t) =~= one);
    if t.status->0@ == "completed"@ {
        assert(active_of(one) == Seq::<Task>::empty());
        assert(one.len() == 1);
    } else {
        assert(active_of(one) =~= one);
    }
}

/// Every task of the list whose status is not `completed` is shown on the
/// dashboard.
pub proof fn lemma_active_of_shows_unfinished(tasks: Seq<Task>)
    ensures
        forall|i: int|
            0 <= i < tasks.len() && (#[trigger] tasks[i]).status->0@ != "completed"@
                ==> active_of(tasks).contains(tasks[i]),
    decreases tasks.len(),
{
    if tasks.len() > 0 {
        let earlier = tasks.drop_last();
        lemma_active_of_shows_unfinished(earlier);
        let shown = active_of(tasks);
        assert forall|i: int|
            0 <= i < tasks.len() && (#[trigger] tasks[i]).status->0@ != "completed"@
                implies shown.contains(tasks[i]) by {
            if i < tasks.len() - 1 {
                assert(tasks[i] == earlier[i]);
                let k = choose|k: int| 0 <= k < active_of(earlier).len() && active_of(earlier)[k] == earlier[i];
                if is_active(tasks.last()) {
                    assert(shown[k] == active_of(earlier)[k]);
                }
            } else {
                assert(shown[shown.len() - 1] == tasks.last());
            }
        }
    }
}

/// Every task shown on the dashboard is a task of the list whose status is
/// not `completed`.
pub proof fn lemma_active_of_shows_only_unfinished(tasks: Seq<Task>)
    ensures
        forall|i: int|
            0 <= i < active_of(tasks).len() ==> tasks.contains(#[trigger] active_of(tasks)[i])
                && active_of(tasks)[i].status->0@ != "completed"@,
    decreases tasks.len(),
{
    if tasks.len() > 0 {
        let earlier = tasks.drop_last();
        lemma_active_of_shows_only_unfinished(earlier);
        let shown = active_of(tasks);
        assert forall|i: int| 0 <= i < shown.len() implies tasks.contains(#[trigger] shown[i])
            && shown[i].status->0@ != "completed"@ by {
            if i < active_of(earlier).len() {
                assert(shown[i] == active_of(earlier)[i]);
                let k = choose|k: int| 0 <= k < earlier.len() && earlier[k] == shown[i];
                assert(tasks[k] == earlier[k]);
            } else {
                assert(shown[i] == tasks[tasks.len() - 1]);
            }
        }
    }
}

// ------------------------------------------------------------ autocomplete

/// The characters of `text` up to its first `=`.
pub open spec fn up_to_eq(text: Seq<char>) -> Seq<char>
    decreases text.len(),
{
    if text.len() == 0 || text[0] == '=' {
        seq![]
    } else {
        seq![text[0]] + up_to_eq(text.skip(1))
    }
}

/// The second `=`-separated field of `text`: what follows its first `=`,
/// up to the next `=`.
pub open spec fn second_field(text: Seq<char>) -> Seq<char>
    decreases text.len(),
{
    if text.len() == 0 {
        seq![]
    } else if text[0] == '=' {
        up_to_eq(text.skip(1))
    } else {
        second_field(text.skip(1))
    }
}

/// `text` with every `%20`, read from left to right, replaced by a space.
pub open spec fn decode_spaces(text: Seq<char>) -> Seq<char>
    decreases text.len(),
{
    if text.len() == 0 {
        seq![]
    } else if text.len() >= 3 && text[0] == '%' && text[1] == '2' && text[2] == '0' {
        seq![' '] + decode_spaces(text.skip(3))
    } else {
        seq![text[0]] + decode_spaces(text.skip(1))
    }
}

/// The words typed in the autocomplete box, read from its query string.
pub open spec fn typed_query(query_string: Seq<char>) -> Seq<char> {
    decode_spaces(second_field(query_string))
}

/// What the autocomplete box asks for.
#[derive(Debug, Clone, PartialEq)]
pub enum AutocompleteQuery {
    /// Nothing typed: no suggestions, and no search.
    Empty,
    /// Search the user's task titles for these words.
    Search(String),
}

proof fn lemma_second_field_skip(text: Seq<char>, k: int)
    requires
        0 <= k <= text.len(),
        forall|j: int| 0 <= j < k ==> text[j] != '=',
    ensures
        second_field(text) == second_field(text.skip(k)),
    decreases k,
{
    if k > 0 {
        lemma_second_field_skip(text, k - 1);
        assert(text.skip(k - 1).skip(1) =~= text.skip(k));
    } else {
        assert(text.skip(0) =~= text);
    }
}

proof fn lemma_up_to_eq_split(text: Seq<char>, k: int)
    requires
        0 <= k <= text.len(),
        forall|j: int| 0 <= j < k ==> text[j] != '=',
    ensures
        up_to_eq(text) == text.take(k) + up_to_eq(text.skip(k)),
    decreases k,
{
    if k > 0 {
        lemma_up_to_eq_split(text.skip(1), k - 1);
        assert(text.skip(1).skip(k - 1) =~= text.skip(k));
        assert(text.take(k) =~= seq![text[0]] + text.skip(1).take(k - 1));
    } else {
        assert(text.skip(0) =~= text);
        assert(text.take(0) =~= Seq::<char>::empty());
    }
}

/// The field of `text` after the `=` at `at`, up to the next `=`.
fn field_after(text: &str, at: usize) -> (field: String)
    requires
        at < text@.len(),
        text@[at as int] == '=',
    ensures
        field@ == up_to_eq(text@.skip(at + 1)),
{
    let n = text.unicode_len();
    let mut end: usize = at + 1;
    while end < n && text.get_char(end) != '='
        invariant
            n == text@.len(),
            at + 1 <= end <= n,
            forall|j: int| at + 1 <= j < end ==> text@[j] != '=',
        decreases n - end,
    {
        end = end + 1;
    }
    proof {
        let rest = text@.skip(at + 1);
        let k = end - (at + 1);
        lemma_up_to_eq_split(rest, k);
        assert(rest.skip(k) =~= text@.skip(end as int));
        assert(up_to_eq(text@.skip(end as int)) =~= Seq::<char>::empty());
        assert(rest.take(k) =~= text@.subrange(at + 1, end as int));
    }
    text.substring_char(at + 1, end).to_owned()
}

/// `text` with every `%20` replaced by a space.
fn decode_percent_spaces(text: &str) -> (decoded: String)
    ensures
        decoded@ == decode_spaces(text@),
{
    let n = text.unicode_len();
    let mut decoded = String::new();
    let mut k: usize = 0;
    assert(text@.skip(0) =~= text@);
    assert(decoded@ + decode_spaces(text@) =~= decode_spaces(text@));
    while k < n
        invariant
            n == text@.len(),
            k <= n,
            decode_spaces(text@) == decoded@ + decode_spaces(text@.skip(k as int)),
        decreases n - k,
    {
        let ghost rest = text@.skip(k as int);
        if n - k >= 3 && text.get_char(k) == '%' && text.get_char(k + 1) == '2'
            && text.get_char(k + 2) == '0' {
            push_char(&mut decoded, ' ');
            proof {
                assert(rest.skip(3) =~= text@.skip(k + 3));
            }
            k = k + 3;
        } else {
            let c = text.get_char(k);
            push_char(&mut decoded, c);
            proof {
                assert(rest.skip(1) =~= text@.skip(k + 1));
            }
            k = k + 1;
        }
        assert(decoded@ + decode_spaces(text@.skip(k as int)) =~= decode_spaces(text@));
    }
    assert(text@.skip(n as int) =~= Seq::<char>::empty());
    decoded
}

/// Reads the autocomplete box's query string (`name=words`): the second
/// `=`-separated field, with `%20` read as a space.  A query string without
/// `=` is refused by a panic.
pub fn autocomplete_query(query_string: &str) -> (query: AutocompleteQuery)
    requires
        query_string@.contains('='),
    ensures
        typed_query(query_string@).len() == 0 ==> query == AutocompleteQuery::Empty,
        typed_query(query_string@).len() > 0 ==> (query matches AutocompleteQuery::Search(q)
            && q@ == typed_query(query_string@)),
{
    let n = query_string.unicode_len();
    let mut at: usize = 0;
    while query_string.get_char(at) != '='
        invariant
            n == query_string@.len(),
            at < n,
            query_string@.contains('='),
            forall|j: int| 0 <= j < at ==> query_string@[j] != '=',
        decreases n - at,
    {
        proof {
            let k = choose|k: int| 0 <= k < n && query_string@[k] == '=';
            assert(k > at);
        }
        at = at + 1;
    }
    proof {
        lemma_second_field_skip(query_string@, at as int);
        assert(query_string@.skip(at as int).skip(1) =~= query_string@.skip(at + 1));
    }
    let field = field_after(query_string, at);
    let decoded = decode_percent_spaces(field.as_str());
    if decoded.as_str().unicode_len() == 0 {
        AutocompleteQuery::Empty
    } else {
        AutocompleteQuery::Search(decoded)
    }
}

/// Text without `%` is left as it is by the decoding of spaces.
proof fn lemma_decode_spaces_plain(text: Seq<char>)
    requires
        forall|i: int| 0 <= i < text.len() ==> text[i] != '%',
    ensures
        decode_spaces(text) == text,
    decreases text.len(),
{
    if text.len() > 0 {
        lemma_decode_spaces_plain(text.skip(1));
        assert(seq![text[0]] + text.skip(1) =~= text);
    }
}

/// The `%20` that the browser writes for a space.
pub open spec fn encoded_space() -> Seq<char> {
    seq!['%', '2', '0']
}

/// Decoding turns a `%20` that follows text without `%` into a space, keeps
/// that text, and goes on decoding what follows: every `%20` is replaced,
/// not only the first.
pub proof fn lemma_decode_spaces_join(a: Seq<char>, b: Seq<char>)
    requires
        forall|i: int| 0 <= i < a.len() ==> a[i] != '%',
    ensures
        decode_spaces(a + encoded_space() + b) == a + seq![' '] + decode_spaces(b),
    decreases a.len(),
{
    let text = a + encoded_space() + b;
    if a.len() == 0 {
        assert(text =~= encoded_space() + b);
        assert(text.skip(3) =~= b);
        assert(a + seq![' '] + decode_spaces(b) =~= seq![' '] + decode_spaces(b));
    } else {
        let rest = a.skip(1);
        lemma_decode_spaces_join(rest, b);
        assert(text[0] == a[0]);
        assert(text.skip(1) =~= rest + encoded_space() + b);
        assert(a + seq![' '] + decode_spaces(b) =~= seq![a[0]] + (rest + seq![' '] + decode_spaces(b)));
    }
}

/// The words of a query string `name=field`, where neither name nor field
/// has `=`, are the field decoded.
proof fn lemma_typed_query_field(name: Seq<char>, field: Seq<char>)
    requires
        forall|i: int| 0 <= i < name.len() ==> name[i] != '=',
        forall|i: int| 0 <= i < field.len() ==> field[i] != '=',
    ensures
        typed_query(name + seq!['='] + field) == decode_spaces(field),
{
    let text = name + seq!['='] + field;
    lemma_second_field_skip(text, name.len() as int);
    assert(text.skip(name.len() as int) =~= seq!['='] + field);
    assert((seq!['='] + field).skip(1) =~= field);
    lemma_up_to_eq_split(field, field.len() as int);
    assert(field.skip(field.len() as int) =~= Seq::<char>::empty());
    assert(field.take(field.len() as int) =~= field);
}

/// A query string `name=words`, whose name has no `=` and whose words have
/// neither `=` nor `%`, asks for exactly those words.
pub proof fn lemma_autocomplete_reads_words(name: Seq<char>, words: Seq<char>)
    requires
        forall|i: int| 0 <= i < name.len() ==> name[i] != '=',
        forall|i: int| 0 <= i < words.len() ==> words[i] != '=' && words[i] != '%',
    ensures
        typed_query(name + seq!['='] + words) == words,
{
    lemma_typed_query_field(name, words);
    lemma_decode_spaces_plain(words);
}

/// Words typed with spaces, which the browser sends joined by `%20`, come
/// back joined by spaces: every `%20` of the query becomes a space.
pub proof fn lemma_autocomplete_decodes_every_space(
    name: Seq<char>,
    w1: Seq<char>,
    w2: Seq<char>,
    w3: Seq<char>,
)
    requires
        forall|i: int| 0 <= i < name.len() ==> name[i] != '=',
        forall|i: int| 0 <= i < w1.len() ==> w1[i] != '=' && w1[i] != '%',
        forall|i: int| 0 <= i < w2.len() ==> w2[i] != '=' && w2[i] != '%',
        forall|i: int| 0 <= i < w3.len() ==> w3[i] != '=' && w3[i] != '%',
    ensures
        typed_query(name + seq!['='] + (w1 + encoded_space() + w2 + encoded_space() + w3))
            == w1 + seq![' '] + w2 + seq![' '] + w3,
{
    let tail = w2 + encoded_space() + w3;
    let field = w1 + encoded_space() + w2 + encoded_space() + w3;
    assert(field =~= w1 + encoded_space() + tail);
    assert forall|i: int| 0 <= i < field.len() implies field[i] != '=' by {
        if i < w1.len() {
            assert(field[i] == w1[i]);
        } else if i < w1.len() + 3 {
            assert(field[i] == encoded_space()[i - w1.len()]);
        } else if i < w1.len() + 3 + w2.len() {
            assert(field[i] == w2[i - w1.len() - 3]);
        } else if i < w1.len() + 6 + w2.len() {
            assert(field[i] == encoded_space()[i - w1.len() - 3 - w2.len()]);
        } else {
            assert(field[i] == w3[i - w1.len() - 6 - w2.len()]);
        }
    }
    lemma_typed_query_field(name, field);
    lemma_decode_spaces_join(w1, tail);
    lemma_decode_spaces_join(w2, w3);
    lemma_decode_spaces_plain(w3);
    assert(w1 + seq![' '] + (w2 + seq![' '] + w3) =~= w1 + seq![' '] + w2 + seq![' '] + w3);
}

/// The titles of `tasks`, in order.
pub open spec fn task_titles(tasks: Seq<Task>) -> Seq<Seq<char>> {
    tasks.map_values(|t: Task| t.title@)
}

/// The suggestions offered for the tasks a search found: their titles, in
/// order; none when the search failed.
pub fn suggestion_titles(found: Option<Vec<Task>>) -> (titles: Vec<String>)
    ensures
        found is None ==> titles@.len() == 0,
        found matches Some(tasks) ==> titles@.map_values(|t: String| t@) == task_titles(tasks@),
{
    match found {
        None => Vec::new(),
        Some(tasks) => {
            let ghost all = tasks@;
            let mut rest = tasks;
            let mut titles: Vec<String> = Vec::new();
            let ghost mut done: int = 0;
            while rest.len() > 0
                invariant
                    0 <= done <= all.len(),
                    rest@ == all.skip(done),
                    titles@.map_values(|t: String| t@) == task_titles(all.take(done)),
                decreases rest@.len(),
            {
                let task = rest.remove(0);
                proof {
                    assert(all[done] == task);
                }
                titles.push(task.title);
                proof {
                    assert(task_titles(all.take(done + 1)) =~= task_titles(all.take(done)).push(
                        all[done].title@,
                    ));
                    assert(titles@.map_values(|t: String| t@) =~= task_titles(all.take(done + 1)));
                    done = done + 1;
                    assert(rest@ =~= all.skip(done));
                }
            }
            assert(all.take(done) =~= all);
            titles
        },
    }
}

// ------------------------------------------------------------------ login

/// The roles granted in the token made at login.
pub open spec fn login_roles_spec() -> Seq<Seq<char>> {
    seq!["ADMIN"@, "OP_GET_SECURED_INFO"@]
}

/// The roles granted in the token made at login: `ADMIN` and
/// `OP_GET_SECURED_INFO`.
pub fn login_roles() -> (roles: Vec<String>)
    ensures
        roles@.map_values(|r: String| r@) == login_roles_spec(),
{
    let mut roles: Vec<String> = Vec::new();
    roles.push("ADMIN".to_owned());
    roles.push("OP_GET_SECURED_INFO".to_owned());
    assert(roles@.map_values(|r: String| r@) =~= login_roles_spec());
    roles
}

/// How a login attempt is answered.
#[derive(Debug, Clone, PartialEq)]
pub enum LoginReply {
    /// Send the browser on to `../dashboard`, setting the `jwt_token` cookie
    /// to this token.
    Dashboard(String),
    /// The token could not be made: a server error, `Error creating token`.
    TokenFailed,
    /// The name or password was wrong: `Invalid credentials`.
    InvalidCredentials,
}

/// Answers a login: refused credentials first; else the dashboard with the
/// token made for the user, or a server error when no token could be made.
/// `token` is what making the token gave, when the credentials were good.
pub fn login_reply(authenticated: bool, token: Option<String>) -> (reply: LoginReply)
    ensures
        !authenticated ==> reply == LoginReply::InvalidCredentials,
        authenticated ==> match token {
            Some(t) => reply == LoginReply::Dashboard(t),
            None => reply == LoginReply::TokenFailed,
        },
{
    if !authenticated {
        LoginReply::InvalidCredentials
    } else {
        match token {
            Some(t) => LoginReply::Dashboard(t),
            None => LoginReply::TokenFailed,
        }
    }
}

impl LoginReply {
    /// The message of the reply's body; a redirect to the dashboard has
    /// none.
    pub fn message(&self) -> (text: String)
        ensures
            text@ == match *self {
                LoginReply::Dashboard(_) => Seq::<char>::empty(),
                LoginReply::TokenFailed => "Error creating token"@,
                LoginReply::InvalidCredentials => "Invalid credentials"@,
            },
    {
        match self {
            LoginReply::Dashboard(_) => String::new(),
            LoginReply::TokenFailed => "Error creating token".to_owned(),
            LoginReply::InvalidCredentials => "Invalid credentials".to_owned(),
        }
    }
}

} // verus!
