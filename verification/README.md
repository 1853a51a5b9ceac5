# efence

An XDP-based network monitor and firewall. The library holds what the XDP
programs and the `efctl` tool decide, with its behaviour stated in Verus
contracts and proved:

- `src/packet.rs`: reading the Ethernet, IPv4, UDP and TCP headers of a
  packet, and the events the two monitor programs report for it;
- `src/enforce.rs`: the ingress enforcement policy, as a step function over
  the answers of the kernel maps, with the proof that its steps carry out the
  policy;
- `src/shared.rs`: the records the programs hand to user space and their
  decoding, the error codes and constants shared with the kernel side;
- `src/event.rs`, `src/error.rs`: the events and errors of the tools.

`app/` is the plumbing around it: the `efctl` command line, loading and
attaching the programs with aya, reading the ring buffers, printing events as
YAML, and the kernel-side shells of the XDP programs (map definitions, ring
buffer submission, logging).
