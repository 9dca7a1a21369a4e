# vaexcore studio core

The logic of vaexcore studio as a Verus library. The functions in `src/` carry
contracts and are proved against them, except five small trusted items that call
outside code (`String::push`, uuid, the chrono clock and RFC 3339 parser, and the
`image` decoder); their contracts are believed, not proved, and the clock reading
has none.

- `src/scene.rs`, `src/compositor.rs`, `src/raster.rs`, `src/image_cache.rs`: scenes,
  their compositor graphs (drawing order, group parents and depths), render plans
  and their validation, the frame clock, the integer pixel arithmetic of the
  renderer, colors, image assets (decoded with the `image` crate) and their cache.
- `src/capture.rs`, `src/audio.rs`: capture bindings and providers, the audio mixer
  plan and the audio runtime snapshot checks.
- `src/pipeline.rs`, `src/performance.rs`, `src/output.rs`, `src/preflight.rs`: the
  pipeline configuration, render target budgets, the output preflight, output jobs
  and the desktop preflight checks.
- `src/api.rs`, `src/registry.rs`, `src/events.rs`: the local API's authorization,
  request identity, client attribution, audited commands, the client registry and
  the recent event history.
- `src/suite.rs`, `src/backups.rs`, `src/console.rs`: the suite protocol between the
  desktop apps, the pruning of scene-collection backups, and Studio's requests to
  the Console app's local API.
- `src/profiles.rs`, `src/ids.rs`, `src/order.rs`, `src/text.rs`: profiles and
  destinations, identifiers, string order and text helpers.

`app/` holds what stays outside verification: the shared event bus and registry,
files on disk, the TCP side of Console requests, and the floating-point audio and
geometry arithmetic. `tests/` runs
the library on concrete scenes and documents.
