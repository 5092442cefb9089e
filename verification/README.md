# zeptoclaw

Parts of an agent runtime, written in Verus: composed tools, an MCP client, the
Gemini provider, persona switching, a serial channel, and tools for boards on a
serial port. Every function of the library is verified against its contract.

- `src/text.rs`, `src/text_map.rs`, `src/json.rs`, `src/paths.rs`,
  `src/clock.rs`: the values that everything else is made of. JSON text, the
  clock and paths come from `serde_json`, `chrono`, `dirs` and the standard
  library, behind a few functions whose contracts are believed.
- `src/tools/`: action templates, composed tools, the tool that manages them,
  and the MCP client.
- `src/providers/`: requests to Gemini and what its answers mean.
- `src/channels/`: the `/persona` command and the serial channel.
- `src/hardware/`, `src/peripherals/`: what is known of a device, and commands
  for boards.

The library decides; it neither reads files nor talks to the network. The
ordinary Rust in `app/` does that: it asks the library what to do, does it, and
hands back what came of it.

`tests/` runs the compiled library.
