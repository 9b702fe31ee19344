# vod

A client for Apple CMS video APIs (`/api.php/provide/vod`), written as a
Verus-verified library with a thin command-line program around it.

- `src/models.rs` – response records, the error check, the emptiness check,
  and the single video or category held in a response's `data` member.
- `src/handler.rs` – what to print for an action, and the tab-separated and
  pretty-printed JSON renderings.
- `src/query.rs` – the query parameters of a request and the request URL.
- `src/text.rs` – decimal text of integers.
- `src/laws.rs` – properties of the renderings and of the query, proved.
- `app/` – the `vod` command: argument parsing, the HTTP request, decoding
  the JSON response into the library's records, printing.
