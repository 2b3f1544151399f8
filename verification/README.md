# multicast_discovery

Nodes of one network find each other on the local network by UDP multicast. A
node asks who is there, announces itself every ten seconds, answers those who
ask, and forgets a peer that it has not heard of for ninety seconds. For each
peer it finds, it adds a lasting connector and makes an immediate connection.

- `src/` is the library, verified with Verus. It holds the rules and performs no
  input or output: its functions take what was read and say what to do next.
  - `message`, `wire`: discovery messages and their bytes.
  - `listener`, `connectable`: addresses, and which of them are announced.
  - `context`, `peers`: what a node knows of itself and of others.
  - `multicast_discovery`: which messages a node believes, and the discovery loop.
  - `socket_setup`: the steps that open the socket.
  - `connect`, `discovery_manager`: what is done about a peer that was found.
  - `laws`: what holds of the protocol as a whole.
- `tests/` runs the library on concrete values.
- `app/` puts the library to work on sockets and the asynchronous runtime.

The library relies on `url` for the syntax of URLs, on `bincode` for the layout
of messages, and on `rand` for the number of a node that has none. What it takes
for granted of each call stands above the function that makes it.
