# rustit

A FreeSWITCH module (`mod_rustit`) whose rules are written in Verus and
proved: configuration parameters and their ranges, event-type names and
subscription filtering, the `X-PRE-PROCESS` directives of XML
configuration, command routing and authorisation of the API listeners, the
decisions around call detail records and their posting, the bookkeeping of
the HTTP file cache, and session tokens.

## Layout

- `src/` — the verified library (crate `rustit`):
  - `text.rs` — character-sequence helpers and exact models of `str::parse`,
    `str::lines`, ASCII case folding and searching;
  - `event_types.rs` — the core's event types, their names and numbers;
  - `sys.rs` — truth of configuration words, handles on core objects, the
    event record and the answers of API commands, events and messages;
  - `directive.rs`, `preprocess.rs` — the pre-processing directives of an
    XML document and the variable references they carry;
  - `listener.rs` — API listener profiles, command plans, subscription
    topics and authorisation;
  - `cdr.rs` — CDR profiles, whether and how a record is produced, and the
    posting with retries;
  - `xml_fetch.rs` — the XML fetching binding and its running state;
  - `storage.rs`, `cache.rs`, `paths.rs` — storage profiles, open files, and
    the HTTP file cache and its URL keys;
  - `token.rs` — HS256 session tokens;
  - `json.rs` — JSON values as plain data, and the answers the API builds
    from the JSON the core sends back.
- `tests/` — tests of the library on concrete values.
- `app/` — the module itself: the calls into the core, the HTTP servers,
  the web and disk I/O, built on the library.

Verify with Verus from the crate root (`src/lib.rs`).
