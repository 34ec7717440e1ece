# gdou_net_login

A login client for the SRUN campus-network portal, written in Verus.

- `src/` is the library. Every function in it carries a contract that
  Verus proves: the login request encodings (`crypto`, `xencode`), the
  portal's replies (`portal`, `response`), URLs and addresses (`url`,
  `ip`, `ipv6`), the login and logout conversations as state machines
  (`flow`), portal detection (`probe`), the reconnect watcher (`monitor`),
  the settings form (`settings`), the diagnosis report (`report`, `diag`)
  and the network adapters (`ipconfig`, `localaddr`, `netif`).
  Calls into other crates (digests, base64, JSON, URL parsing, text
  decoding, the configuration directory) go through small wrappers whose
  contracts state what those crates document.
- `tests/` runs the library on concrete inputs.
- `app/` is the command-line program around it: HTTP requests, the
  keyring, the configuration file, the Windows tools it asks (adapter
  listing, routes, proxy, traffic, the start-up entries), and the watch
  loop that drives the library's decisions.
