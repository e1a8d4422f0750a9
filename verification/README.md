# rustwave

A small websocket event server and client. The library in `src/` holds the
logic and its proofs: the registry of connected sockets and rooms
(`server_states`), who a broadcast reaches (`broadcast_builder`), event
handler tables (`events`), the JSON framing of event messages (`wire`),
socket ids (`socket_id`), and the decisions of the tasks that read and write
a connection (`session`, `client`). `laws` states what holds across calls.

`app/` wraps it in the asynchronous API: the listener and its per-connection
tasks, the channels that carry messages to sockets, and the client's socket.
