# frontend

The logic of an image board's web frontend, written in Verus and proved
against its contracts: form parsing and request building, the upload queue
and the "upload all" state machine, endless-scroll paging, bulk selection,
merges, tokens, list URLs and display formatting.

- `src/` — the verified library. Each module states its behaviour over
  spec functions (`Seq<char>` for text, `Seq` and `Set` for collections);
  the `law_*` proof functions state properties that span several calls.
- `src/web.rs` — the two calls into the browser, each behind a wrapper:
  `decodeURIComponent`, whose result is stated (`uri::uri_decoded`), and
  the `URL` parser, whose result is named (`url_host_of`).
- `app/` — the browser side: local storage, Leptos signals, DOM listeners,
  JavaScript dates and regular expressions.
- `tests/` — tests of the library on concrete values.

`app/` holds the storage, signals and DOM listeners, not the page components:
those need the server's API client and the shared data types of the
project's other crates, which are not part of this repository.
