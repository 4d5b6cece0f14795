# adsbee

Decoders and state for ADS-B and Mode S reception, written in Verus. The
functions in `src/` carry contracts that Verus proves, except a few small
wrappers around outside code (the Mode S CRC of the `crc` crate, date and
time parsing of `chrono`, UUID texts of `uuid`, and `std` string
conversions), whose contracts are trusted and say so in their doc comments.

## Layout

- `src/` — the verified library
  - `mode_s` — Mode S frames (downlink formats, altitude and identity codes,
    checksums), their ADS-B messages, CPR bookkeeping, and debugging texts
  - `mode_ac` — Mode A/C replies
  - `beast` — the BEAST stream format: packet types, packet decoding across
    buffers, and encoding
  - `sbs` — the SBS (BaseStation) text format
  - `rtlsdr` — samples of an RTL-SDR receiver, the demodulator that finds
    Mode S frames in them, `rtl_tcp` headers and commands, and `rtl_adsb`
    output lines
  - `tracker` — the state of tracked aircraft, the subscriptions of
    clients, and the reactor that handles the tracker's commands
  - `history` — indexing traces of aircraft from the history archives
  - `tar1090` — flags of the tar1090 aircraft database
  - `live` — the messages of the live WebSocket API
  - `sparse_list`, `types`, `text`, `bits` — shared data structures and helpers
- `tests/` — tests that run the library
- `app/` — what the library leaves out: floating-point conversions and CPR
  decoding in degrees, asynchronous readers and clients, and the tracker task

Times in the tracker are nanoseconds since the Unix epoch. Positions are
decoded with floating point in `app/`: the library plans each decoding and
stores what it gives.
