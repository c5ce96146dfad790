# azure_linux_boot_agent

A small Azure boot agent: it provisions a VM once (host name, OVF environment,
custom data, entropy, users with SSH keys), reports the role instance ready to
the wire server, and records the VM id so that later boots do nothing.

- `src/` is the library, verified with Verus:
  - `health.rs`: the ready report document.
  - `agent.rs`: the agent's identity, its options and errors, and the HTTP
    requests it sends (URLs resolved with `reqwest::Url`).
  - `osutil.rs`: user names from `authorized_keys` paths (with `regex`), the
    commands that create users and fix their home directories, and the rule
    for running a sequence of commands.
  - `provision.rs`: the provisioning run as a machine from outcome to next
    action, with the laws it obeys (once per VM, the VM id recorded only after
    an accepted ready report, optional steps only when enabled). URLs are
    resolved by the `url` crate, whose results the library names but does not
    restate, so the once-per-VM laws are proved for the case where the
    metadata service's `vmId` URL can be built (where it cannot, a run gives
    up before it changes anything).
  - `goalstate.rs`, `metadata.rs`: the goal state and public key records.
- `app/` is the program: command line, logging, HTTP, files and processes; it
  performs the actions the library decides and decodes XML and JSON with serde.
- `tests/` runs the library on concrete values.
