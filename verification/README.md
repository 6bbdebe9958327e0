# life_tracker

The rules of a small task, goal and reward tracker, written in Verus and
proved against their contracts.

- `src/` is the verified library:
  - `types` — the task status life cycle (stored texts, allowed moves) and
    its laws;
  - `models` — the records the tracker keeps, and calendar dates and
    timestamps;
  - `crud` — the rows and change sets that creating and updating tasks,
    users, goals and tags write, password checks, and the narrowing of task
    searches;
  - `routes` — page and reply decisions: session gates, the dashboard's task
    filter, the autocomplete query, login replies, list pages and deletion
    messages;
  - `gpt` — judging a chat-completion exchange and building the assistant's
    message;
  - `auth`, `settings`, `clean_input`, `text` — bearer tokens, the bind
    address, HTML cleaning and shared string helpers.
- `app/` is the web server around it (actix-web, diesel on SQLite,
  handlebars, reqwest): it reads requests, the database, the network and the
  clock, and hands plain values to the library.
- `tests/` exercise the library on concrete values.
