# lnp_node

The decision logic of a Lightning Network Protocol node, written in Verus and
verified against its contracts: what the node daemons decide on each message,
and the parsers, printers and selections they rely on. Message buses, disk,
Electrum and the other I/O stay outside the library; they hand it plain values
and carry out what it decides.

Modules of `src/`:

- `text`, `hex`: decimal and hexadecimal text, the common ground of the
  printers and parsers;
- `amount`: amounts of assets given on the command line;
- `service`: identifiers of the daemons and of the buses between them;
- `rpc`: RPC messages, failure codes, client reports, channel requests;
- `channel`: the channel daemon's proposal and acceptance workflows, the
  reports it sends and the routing of its messages;
- `launcher`: the broker's workflow launching a channel daemon for a client;
- `funding`: coin selection, the funds of the funding wallet and the
  fundings pending on it;
- `script`: the address, assembly and hexadecimal form of a funding script;
- `link`: the connection daemon's ping/pong liveness and routing;
- `client`, `cli`: the command-line clients' requests and how they follow
  them;
- `addr`: listening addresses, `ip[:port]` pairs and public keys given on the
  command line;
- `responder`: the block-parsing API responder;
- `config`: log levels, Electrum servers, configuration parameters;
- `init`: first-time initialisation of the node data and the signing
  account derived from the master key.

`app/main.rs` is a small command-line front end over the library.
