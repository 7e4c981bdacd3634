# petagent_plugins

Verified request handling for the PetAgent plugin services: the echo and
disk-usage MCP tools, the clock app service, and the native probe and
hardware-temperature plugins.

- `src/` is the library, verified with Verus. `json` models the JSON values
  that requests carry and replies hold; `rpc` frames JSON-RPC 2.0 replies;
  `echo`, `disk`, `clock`, `sensors`, `readings` and `native` decide what each service
  answers; `local_time` reads and formats the local clock through `chrono`;
  `text` holds the character-level text operations they share.
- `app/` runs the services: stdio loops, JSON parsing and writing with
  `serde_json`, reading the disks with `sysinfo`, reading sensors through NVML
  and WMI on Windows, the floating-point figures of the reports, and the C ABI
  of the native plugins.
- `tests/` exercises the library on concrete requests.
