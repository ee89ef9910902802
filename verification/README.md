# demo_server

A small actix-web service (users with their posts, error replies, a
websocket echo) whose decisions are verified with Verus.

- `src/` is the verified library. `text` renders and parses `i32` as
  decimal text; `reply` composes replies (status, content type, body) and
  holds the error-handler middleware; `errors` holds the error types and
  their replies; `routes` and `user_posts` decide what each route answers;
  `websocket` decides the echo; `route_macros` holds the decisions of the
  service's attribute macros (which functions are routes, which a module
  registers, how a handler's result becomes a reply); `entity` holds the
  rows the service reads.
- `app/` is the server around it: the database queries, the actix
  handlers and middleware, the websocket session, and the serialised and
  database copies of the library's types.
- `tests/` runs the library on concrete values.
