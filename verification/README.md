# floatctf_awd

The decision core of an attack-defence CTF engine, in two flavours: AWD
(teams attack each other's game boxes in rounds) and AWD-Plus (a Break phase
followed by a Fix phase with scored fix rounds, also run as single-player
practice). Every function in `src/` is verified with Verus against its
`requires` / `ensures` contract.

## Layout

- `src/` — the verified library.
  - Text and addresses: `text`, `lines`, `digest`, `cidr`.
  - AWD events: `awd_event` (status machine, start / pause / resume / finish /
    archive), `awd_network` and `event_network` (event blocks, pools, ports,
    cross-event overlap), `deploy`, `wireguard`, `firewall` (rule rendering
    per phase and multi-event merge), `command` (host command lines),
    `precheck` and `precheck_probe`, `judge`, `judge_auth`, `round`,
    `submission`, `reset`, `recovery`, `gamebox`.
  - AWD-Plus: `awdp_phase`, `awdp_config`, `awdp_timing`, `awdp_run`,
    `awdp_rounds`, `awdp_lease`, `awdp_ident` (flags and keys), `awdp_subnet`,
    `awdp_store` (record-store decisions), `awdp_access` (endpoint access
    rules), `awdp_training`, `practice_judge`.
  - `error` — the error kinds of both engines.
- `tests/` — tests of the library on concrete values.
- `app/` — the unverified edge: running host commands, converting to and from
  `uuid`, `chrono` and `ipnetwork` values, and JSON payloads.

Instants are Unix nanoseconds and identifiers are 128-bit values throughout
the library; `app/` converts them at the edge.
