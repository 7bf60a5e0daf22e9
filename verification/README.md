# lsp_fuzz

The core of a fuzzer for language servers, written in Verus: what an input is
(a workspace of documents and the messages sent about it), how inputs are
mutated and their message parameters generated, how a session is framed into
bytes and the server's replies matched back to requests, and what the fuzzer
remembers of what it has seen.

## Layout

- `src/` — the verified library.
  - `json_rpc`, `decimal`, `text`, `uri`: the wire format (framing, headers,
    ids), decimal text, string helpers and the virtual `lsp-fuzz://` URIs.
  - `message`, `messages`, `session`, `localize`, `matching`: protocol
    messages and their parameters (JSON, or the session's own `initialize`,
    `initialized`, `didOpen`, `shutdown` and `exit` parameters as data),
    message sequences with their ids, the session a server is sent, its
    localization into the directory the workspace is written to, and the
    matching of replies to the sent requests they answer, by value.
  - `lsp_input`, `feedback`, `fuzz_state`, `fuzz_rand`: inputs and their
    workspaces, what is kept of the replies, the state generators and
    mutators read, and the random source.
  - `generation`, `selection`, `range_selectors`, `plans`, `mutators`:
    parameter generators, position and range selection, the generator plans
    of each parameter type, and input mutators.
  - `bloom`, `curiosity`, `novelty`: the Bloom filters of seen behaviors and
    diagnostic kinds, and the feedback decisions made with them.
  - `grammar`, `metamodel`, `stages`, `capabilities`: the message grammar,
    the LSP meta-model types, the statistics and timeout stages, and the
    symbol kinds the client announces.
- `tests/` — tests that run the library with its outside crates.
- `app/` — the unverified edge: I/O, adapters to libafl, the JSON form of messages and their
  parameters, decoding of typed replies, and the client capabilities.
