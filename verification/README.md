# email_tester

An SMTP test client whose core is verified with Verus.

`src/` is the library; every function in it is checked against its
`requires`/`ensures` contract:

- `smtp` — TLS modes and authentication mechanisms: parsing (case-insensitive),
  descriptions, and the port/mode mismatch warnings.
- `diagnose` — advice derived from an SMTP error message.
- `address` — the e-mail address format check of `verify`.
- `ping` — statistics over a series of probes and their JSON record.
- `probe` — what `ping`, `info` and `verify` report for a probe, their summary rows,
  and the JSON record of `info` and `verify`.
- `send` — send parameters, extra `KEY:VALUE` headers, the retry/back-off state
  machine and the final record.
- `mail` — building the message with lettre: address checks in order, extra headers,
  body layout; a ghost model records what the builder was handed and the body
  of the finished message, and lettre's acceptance of it is named.
- `transport` — the transport plan and building the lettre SMTP transport, with a
  ghost model of the configuration handed to lettre.
- `logger` — every console line (as styled segments) and log-file entry.
- `config`, `cli` — configuration defaults, what `config --save` writes, and how
  command-line options combine with the configuration file.
- `text` — decimal rendering, padding, search and the std string helpers used above.

`app/` is the command-line program around it: argument parsing (clap), the
configuration file (toml), JSON output (serde_json), colours, time stamps,
password prompt, network I/O and sleeping between retries.

`tests/` runs the library on concrete values.
