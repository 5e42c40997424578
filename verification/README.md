# librazer

Support code for controlling Razer Blade laptops without Razer Synapse: the
table of supported models and their detection, the HID request/response
exchange, the M3–M5 macro keys and their actions, the NVIDIA render preference,
and the control panel's decisions. This crate holds the verified core; `app/`
holds the platform layer (USB HID, Windows APIs, egui drawing) that calls it.

Layout of `src/`:

- `descriptor.rs` – the table of supported models and what each supports.
- `device.rs` – enumeration, model detection (by model number, falling back to
  the USB product id) and the request/response retry protocol.
- `gpu.rs` – display owner detection and the NVIDIA "Preferred graphics
  processor" setting; `gpu/unsupported.rs` for other platforms.
- `macro_keys.rs` – macro key report decoding.
- `macro_actions.rs` – page key injection, refresh-rate cycling, mic mute;
  `macro_actions/unsupported.rs` for other platforms.
- `ui/` – the decisions of the control panel sections.
- `types.rs`, `text.rs` – performance mode and boost types, string helpers.

Every public function states its result in its contract; the `lemma_*` proof
functions state properties that span functions (detection of every listed
model by its model number, bounded retries, reading back a written GPU
preference, and so on).
