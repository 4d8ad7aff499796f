# rswebtwain

A scan agent that bridges browser applications to TWAIN document scanners, with
its decisions verified by Verus.

A page connects over a local WebSocket, lists scanners, and starts a scan. The
agent drives 64-bit drivers itself, and 32-bit ones through a small driver process
that it talks to over its standard streams. Pages reach the client as binary
frames while the scan runs; a PDF is written page by page and sent at the end.

## Layout

- `src/` is the verified library. Every function states what it does in
  `requires` and `ensures`; what relates several functions is stated by public
  proof functions whose names begin with `law_`.
  - `config`, `ws_server`, `address`: configuration, who may connect, frames.
  - `protocol`, `agent`, `deep_link`: messages, and what becomes of each request.
  - `scanner/twain`, `scanner/session`: the TWAIN session as a state machine, and
    one scan as a sequence of manager calls.
  - `scanner/sidecar`, `driver`: both ends of the 32-bit driver process.
  - `scanner/raw`, `scanner/encode`, `scanner/thumbnail`, `pdf`: from transferred
    bytes to images and documents.
  - `scanner/run`, `scanner/delivery`: a scan on its way to its client.
  - `logging`, `text`: which log files to keep, and text building blocks.
- `app/` is ordinary Rust around it: sockets, processes, files, the calls into the
  data source manager, and the tray icon. The library's state machines say what to
  do next; the application does it and reports back.
- `tests/` runs the library on concrete values.

Calls into outside crates stand behind functions marked `external_body`, whose doc
comments say what is believed of them: base64, image encoding and scaling, URL
parsing, UUIDs. Of the standard library, `String::push` and
`String::from_utf8_lossy` are believed in the same way.
