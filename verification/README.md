# music-generator

A library for an MCP server that composes 8-bit chiptune game audio with a
text-to-audio model, verified with Verus.

- `src/design.rs`: the design prompts that frame every request and the
  synthesis recipes of sound-effect presets, looked up ignoring ASCII case and
  the separators `-`, `_` and space.
- `src/server.rs`: what each tool (`generate_music`, `generate_sfx`,
  `generate_loop`, `remix_music`) sends, where it saves the answer, and what it
  returns. Every prompt is proved to carry the universal loop directive.
- `src/lyria.rs`: the endpoint, the request bodies, and how an answer becomes
  audio or an error.
- `src/api_key.rs`: the order in which the API key is looked for, and how it
  is masked for logs.
- `src/codec.rs`: base64 through the `base64` crate.
- `src/text.rs`: small string helpers.

`app/` holds the server itself: stdio transport, HTTP, files, environment and
the browser prompt for the key.
