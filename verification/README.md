# client_server

A TCP server that keeps a list of registered clients and sends them keep-alive
messages, and the client that registers with it (a UPS monitor warns Raspberry Pi
machines before the battery runs out).

- `src/` is the verified library: the configuration, the list of clients, the
  server's session and listing decisions, the client's decisions, and the text
  operations they use. `src/laws.rs` holds the properties that span operations.
- `app/` is the program around it: sockets, threads, the configuration file,
  Ctrl+C and syslog.
