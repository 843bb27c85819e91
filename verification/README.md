# pastebin

A paste-sharing service: users sign up and log in for a bearer token, store
snippets of text under short random links, and read them back through a
GraphQL endpoint.

- `src/` is the verified library. It holds every decision of the service:
  the SQL statements and the order in which they run (`db`, `user`,
  `copied_data`), issuing tokens and finding them in requests (`jwt`), the
  answers to login and sign-up (`auth`), who may run a GraphQL request and
  what each resolver answers (`graphql`), and the text handling they rest on
  (`text`).
- `app/` is the server around it: actix-web routes, the async-graphql
  schema, and SQLite through sqlx. It runs the library's requests and hands
  the answers back.
- `tests/` exercises the library with the outside crates linked.
