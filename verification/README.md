# server

A websocket game server that keeps players, teams and learned blueprints in a
Dgraph database.

- `src/` is the verified library:
  - `text`: lowercase hex, `#rrggbb` colours, hyphenated UUID text, decimal integers;
  - `messages`: the JSON messages exchanged with clients;
  - `records`: players, teams and blueprints as stored in the database;
  - `database`: the queries and mutations the server sends, and how answers are read;
  - `session`: the login snapshot, the requests each client message asks for, and the replies.
- `app/` runs the server: sockets, the Dgraph client, and the JSON encoding of the library's types.
- `tests/` exercises the library on concrete values.
