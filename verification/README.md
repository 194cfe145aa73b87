# albion_network_lib

Albion Online network traffic, taken apart up to the Photon message,
verified with Verus.

What this project does not hold: a decoder of Photon message bodies (the
Protocol 18 value format), the game's table of operation and event codes,
and its full world map. So the library splits captured UDP payloads into
Photon messages but decodes none of them; the game logic runs on
operations and events that are handed to it already decoded (as the tests
do). The `debug_packets` tool built from `app/` therefore frames the
traffic it captures and lets the messages go, with an empty code table:
as it stands it prints no decoded packet. The built-in world map knows
four locations; a full one can be loaded from its JSON.

The library (`src/`) holds the logic, each function with a contract that
Verus proves:

- `capture`: endpoints and IP addresses, CIDR host filters and hosts files,
  the port/host capture filter, Ethernet/VLAN/IPv4/IPv6 UDP frames, and
  pcapng captures read from their bytes.
- `photon`: Photon command framing (reliable, unreliable and fragmented
  commands, with fragments put back together) and the parser that keeps
  the framed messages and records decoded operations and events.
- `albion`: operation and event codes, the message payloads, and the game
  state they drive: market orders and trades, market mail, chat channels,
  building repairs, the player's identity and location.
- `models`, `packet`: the data model (locations, world map, orders, mail,
  identifiers, parameters, decoded packets).
- `cli`, `live`: the `debug_packets` tool's options, its capture and host
  filters, which decoded packets it prints, and what it does with each
  captured frame.

Calls into `serde_json` and `chrono` go through a few trusted wrappers,
each documented where it is declared.

`app/main.rs` is the `debug_packets` tool itself: argument handling, live
capture with `pcap`, Ctrl-C handling, the item-name download with `ureq`,
and JSON output through the `serde` copies of the library's types in
`app/wire.rs`.

`tests/` runs the library on concrete inputs.
