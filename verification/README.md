# chat_core

The verified core of Murmur, a serverless terminal chat node on libp2p
(gossipsub for messages, mDNS for discovery, Kademlia for `/find`).

- `src/` is the library, proved with Verus:
  - `text` — trimming, prefixes, decimal numerals and code point order over
    Unicode scalar values;
  - `message` — chat payloads, history rows and the lines the window shows;
  - `peer_table` — known peers and the sorted peer pane;
  - `command` — what a typed line asks for (`/ip4/...`, `/find <peer id>`,
    or a chat message);
  - `network` — the network task's commands and the events it reports;
  - `reaction` — the swarm work and events the network task derives from
    each swarm report (mDNS, connections, chat messages, DHT answers);
  - `session` — the chat window as a state machine over keystrokes and
    network events, with its laws;
  - `gossip` — the gossipsub behaviour: signed with the node's key, strict
    validation, a ten-second heartbeat, `message_id` as its message ids,
    subscribed to the chat topic alone;
  - `base58` — base-58 text of bytes, and the shape of an Ed25519 node's
    peer id text (52 characters, starting `12D3KooW`);
  - `p2p` — identities, peer id and address parsing, peer id texts, and
    message identifiers (which fields are hashed, in which order);
  - `setup` — the user name and the history database location.
- `app/` is the program: it builds the swarm around the library's gossip
  behaviour (mDNS, Kademlia, TCP with Noise and Yamux), runs the network task and the
  terminal loop, stores history in SQLite and turns chat messages into JSON.
  It carries out the swarm work and events that the library decides on.
- `tests/` runs the library on concrete values.
