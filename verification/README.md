# meson_app

The verified core of the Meson "My Files" pages, written in Verus.

`src/` holds the decisions, each with a contract proved by Verus:

| Module | What it decides |
|--------|-----------------|
| `error` | `MesonAppError` and its wire form (`auth:`, `not_found:`, `forbidden:`, `io:`) |
| `status` | badge label, appearance and color of a file status |
| `preview` | the preview size guard, the step before the blob fetch, and the payload |
| `codec` | Base64 and lossy UTF-8 (calls into `base64` and std, with trusted contracts) |
| `files` | table rows from stored records, and the owned-file lookup |
| `session` | the session checks of every server function |
| `paths` | record ids in path segments, detail links, image mime types |
| `ui` | size units and the preview pane |
| `fixtures` | the seeded fixtures of the browser test host |
| `permissions` | the permission domain |

`app/` is the Leptos side: pages, server functions, Valence queries, the blob
store, logging, and copies of the library's types with serde and thiserror
derives. It needs the Unified Field crates (`uf_product`, `higgs`, `valence`,
`meson`, ...) that the host provides.
