# wallguard_server

The server side of WallGuard: devices authenticate, keep a heartbeat stream
open, send their firewall configuration, and the server records all of it in
the datastore.

`src/` is the verified library. It makes the requests that the server sends
to the datastore, reads their answers, and takes the decisions of the control
service that depend on them (authorization, device checks, configuration
snapshots, heartbeat steps), each with a contract that Verus proves:

- `builders/`, `requests.rs`: the datastore's requests and their builders;
- `json.rs`, `records.rs`, `responses.rs`: JSON values, the records sent and
  the answers read;
- `config_upload.rs`, `config_data.rs`, `related_records.rs`, `interfaces.rs`,
  `digest.rs`: uploading a configuration with its rules, aliases and
  interfaces;
- `features.rs`: heartbeats, device setup, remote sessions, SSH keys, IP
  information, logs and resources;
- `clients.rs`, `heartbeat_stream.rs`, `device.rs`, `token.rs`: the registry
  of connected devices, the steps of a heartbeat stream, authorization and the
  checks on a device's token;
- `config.rs`, `status.rs`, `tables.rs`, `text.rs`: settings, statuses, table
  names and text helpers.

The wait for an operator's decision on an authorization and the gRPC service
itself are not in this crate.

`app/` is the program around it: the command line, the environment, the
datastore connection and the tasks that run the heartbeat streams.

The digest of a configuration is the MD5 of its raw content in lowercase
hexadecimal, computed with the `md5` crate (`digest.rs`).
