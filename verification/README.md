# xdpstats

Verified core of an XDP packet-statistics tool. The library (`src/`) holds the
logic, checked by Verus:

- `csum`: one's-complement checksums: folding, RFC 1624 incremental updates
  for 16- and 32-bit fields, the IPv4 header checksum, and the laws relating
  them (an update undone restores the checksum; an update agrees with
  recomputation; a written header checksum verifies).
- `wire`, `net`, `protocol`, `ctx`: header layout on a packet buffer, address
  and port swapping, the transport protocol and the parsed-packet context.
- `xdp`, `tx`, `fib`: the XDP program's verdict for a packet, the
  transmit-back rewrite, and the FIB-lookup path. Kernel helpers (FIB lookup,
  AF_XDP redirect) are not callable here; their outcomes are arguments.
- `stats`: statistic kinds, per-CPU counters and the displayed totals and rates.
- `afxdp`, `cli`, `logger`, `text`, `attach`, `watch`: AF_XDP options and frame
  bookkeeping, command-line options, log filtering and the bounded log buffer,
  comma-list parsing.

`app/` is the user-space program around it: loading and attaching the BPF
object with `aya`, reading the statistics map, terminal output, the watch view,
and AF_XDP sockets (built with the `afxdp` feature, which needs the system
libbpf/libxdp).

The eBPF program itself is not built by this crate: `app/` loads a compiled
BPF object (`OUT_DIR`, or the working directory) and attaches it. `xdp::xdp_stats`
states and proves what that program does with a packet: the verdict, the
counter it bumps, the rewrite it makes, and the requests it hands to the
kernel's FIB-lookup and AF_XDP-redirect helpers, whose outcomes it takes as
arguments. Running the verified function in the kernel would need a BPF
target for it, which is outside this crate.
