# juniper_actix (verified core)

The actix-web integration of Juniper, with its decisions proved in Verus.

- `src/` is the verified library:
  - `ws_util.rs`: the message types of the GraphQL over WebSocket protocol and
    their wire names, the subscription lifecycle states and handler trait;
  - `messages.rs`: the exact text of every server message;
  - `session.rs`: the server side of one websocket connection, as a step
    function from frame to next state and actions, among them the events
    told to the subscription handler; its keep-alive tick; and the check that
    lets the results of an operation out only while it runs;
  - `session_laws.rs`: the protocol's laws over that step function;
  - `http.rs`: method routing, content-type check, status of GraphQL replies,
    and the GraphiQL and Playground pages (generated by `juniper`).
- `app/` holds the actix-web handlers and the websocket actor: they read
  requests, run the schema, serialize, and perform what the library decides.
- `tests/` runs the library on concrete inputs.
