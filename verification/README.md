# p2p_chat

The verified core of a peer-to-peer chat: a signalling server that relays
chat requests and WebRTC offers, answers and ICE candidates between friends,
and a desktop client that keeps one websocket to that server and one peer
connection (with a chat data channel) per friend.

- `src/` is the library, checked by Verus: the server's rules (errors,
  configuration, accounts and sessions, passwords, tokens, friend requests,
  the registry of live connections, the handling of client events) and the
  client's state (websocket status, peer connections, held ICE candidates,
  data channels, logout), with the laws that relate them.
- `tests/` runs the library on concrete values.
- `app/` is the unverified program around it: the HTTP routes, SQL, the
  websocket loops and the JSON forms of the messages.
