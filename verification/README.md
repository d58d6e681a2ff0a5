# atat

A library for AT-command based serial modules (the Hayes command set): it
digests what a modem sends into command echoes, responses, prompts for data,
error result codes (`+CME ERROR`, `+CMS ERROR`, connection errors) and
unsolicited result codes (URCs), and hands them on to the client.

- `src/` is the library, written in Verus: every function carries its
  contract and is proved against it. The user-implemented traits (`Digester`,
  `Parser`, `AtatUrc`, `UrcMatcher`) are the points where user code comes in;
  each states in spec functions what its methods report (`digest_spec`,
  `urc_spec`, `parse_spec`, `process_spec`), and the ingress, client and
  digester contracts say what is done with exactly those reports. Where the
  answer comes from outside the library (whether a frame queue has room), the
  contracts say what holds for every answer.
- `app/` holds what needs I/O, clocks or the derives and traits of other
  crates: the bincode codec of frames, `Display` and `std::error::Error` for
  the errors, the embedded-io error classification, the timed configuration
  and the blocking clients' serial loops.
- `tests/` exercises the library on concrete traffic.
