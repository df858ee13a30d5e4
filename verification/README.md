# ironet

The decisions of an overlay network runtime, written in Rust and verified with
Verus: how a connection is tuned, which packets are admitted and in what order
they are sent, which route a flow takes, and what the host's kernel is told.

The library computes; it opens no socket and runs no program. Every function
takes plain values and returns plain values, and its contract says exactly what
comes back for every input. Where a function reads the clock itself, its contract
says so for some reading, and one beside it takes the instant as an argument.

## Layout

- `src/tuning`, `src/policy`: the auto-tuner, from smoothed telemetry over the
  native rules and the host's guardrails to a bounded decision.
- `src/autotune`: the state machines around the tuner: telemetry windows,
  receiver feedback, congestion-window floors, capacity probes, policy reload,
  overrides, the tap and the periodic status.
- `src/dataplane`: admission from the tunnel, the order of polling, reassembled
  records, receive budgets and kernel routes.
- `src/mesh`: Presence, path-MTU constraints, trace correlation, relaying,
  transit and the dispatch of packets to adjacencies.
- `src/route_selection`: the lease of a flow on a route and the quality table.
- `src/routes`, `src/config`, `src/product`, `src/peers`, `src/connection`: the
  route registry, configurations, the merging of repeated peers, dials and
  sessions.
- `src/host_network`: the commands for `ip`, `tc`, `sysctl` and the firewall.
- The other modules hold what these share: time, numbers, texts, sorting,
  grouping, addresses, digests and identities.
- `app`: the program around the library: processes, files, timers and tasks. The
  QUIC stack, the Cell scheduler and the reassembler enter it through traits.
- `tests`: the library's tests.

## What is believed

Calls into other crates stand behind small functions marked
`#[verifier::external_body]`, whose contracts are believed rather than proved:
BLAKE3 digests and hexadecimal text (`digest`), public keys (`identity`),
prefixes and addresses as text (`prefix`), JSON documents (`json`), virtio
headers and segmentation (`dataplane::tun`), flow hashes (`dataplane::ingress`),
the candidate list of a route lookup (`route_selection`) and the monotonic
clock (`time`). Each says in its comment what it claims.
