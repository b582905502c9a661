# swiboe

Verified core of the swiboe RPC plumbing, written in Verus.

- `src/rpc_id.rs`: RPC identifiers of the form `name:implementor`. The syntax of names and
  implementors is stated as spec functions (`name_syntax`, `implementor_syntax`), the identifier
  is split at its first colon, and proof functions state the round trip between parsing and
  formatting.
- `src/matcher.rs`: the calls into the `regex` crate that check names and implementors, behind
  trusted wrappers.
- `src/plugin_core.rs`: what the core plugin does with a call (`core.exit`, `core.new_rpc`, or an
  unknown function): the command it sends the server and the answer it gives.
- `app/lib.rs`: the plugin itself, which reads JSON arguments with serde and sends commands on a
  channel.
