# traceroute

A UDP and TCP traceroute with OpenTelemetry tracing and a monitoring daemon.
The decisions of the tool live in a library whose behaviour is stated in
`requires` / `ensures` contracts and proved with Verus; the program around it
does the I/O.

## Layout

- `src/` — the verified library:
  - `engine/hop.rs` — hop records, the reduction of a trace to the hops up to
    the destination, and whether a trace reached it;
  - `engine/schedule.rs` — `TraceRun`: which TTL to probe next, when to stop,
    and the ordered, reduced result;
  - `engine/udp.rs`, `engine/tcp.rs` — classification of ICMP errors, probe
    source ports, correlation of raw replies with the SYN sent, and the steps
    of a stream probe;
  - `packet/` — the TCP SYN header, the QUIC Initial packet, and recovery of
    the probe identity from the packet quoted in an ICMP error (slicing by
    etherparse);
  - `config/` — the configuration model, its validation and the sample;
  - `service/` — health statistics and payload, the span-link cache, and the
    daemon's decisions;
  - `telemetry/` — trace baggage and the collector URL;
  - `net.rs`, `duration.rs`, `text.rs` — addresses, durations and decimal text.
- `tests/` — tests of the library with concrete values.
- `app/` — the command-line program: argument parsing, YAML, sockets and the
  error queue, the async engines, the HTTP health endpoint, the daemon loop
  and the OpenTelemetry exporter.
