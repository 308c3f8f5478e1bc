# mcp_servers

Two small MCP servers, with their logic verified in Verus.

- The fast time server echoes messages, fails on demand for retry tests, tells the time and
  converts it between time zones, over MCP and over a plain HTTP API.
- The filesystem server decides where it may listen and which requests carry its bearer token.

## Layout

| Path | What it holds |
|------|---------------|
| `src/text.rs` | decimal numbers and comparison of text |
| `src/calendar.rs` | the calls into `chrono` and `chrono_tz`, with what is taken for granted of them |
| `src/moment.rs` | instants, local times and days |
| `src/offset.rs` | fixed offsets from UTC and their text |
| `src/timezone.rs` | time zones, reading times in them and writing times in them |
| `src/delay.rs` | delays before an answer |
| `src/protocol.rs` | the protocol revisions that are served |
| `src/fast_time.rs` | the tools and answers of the fast time server |
| `src/filesystem.rs` | bearer tokens, the bind address and the banner of the filesystem server |
| `app/` | the programs around the library: arguments, logging, HTTP and the MCP SDK |

What the library states is in the `ensures` of its functions, and in the public proof functions
at the end of each module.
