# vpci_relay

A virtual PCI relay for a paravisor. It consumes VPCI buses from the host and
relays them to the guest, filtering them as needed. It is written in Rust and
verified with Verus.

- `src/` is the library: which devices may be relayed, which slot and MMIO window
  a device gets, what to do in which order when a bus arrives, when a device is
  wanted back, and when a TDISP-capable device is started. Every function has a
  contract that Verus proves, but for the few that call the two outside crates
  below: their contracts are taken on trust.
- `tests/` runs the library.
- `app/` connects the library to the host, to the guest's chipset and to the TDX
  module.

The library does no I/O. An operation that needs some is a sequence of steps: a
step takes the reply to the last request, and names the next request or the end.
What holds of a whole sequence is stated in the modules whose names end in
`_laws`.

Two outside crates do work in `src/`: `slab` keeps the table of devices, and
`sha2` computes the digest of a device's interface report. The functions that
call them are in `src/slots.rs` and `src/report.rs`, each with what it is taken
to do.
