# tako_desktop

The verified core of the Tako desktop launcher, which installs a private Bun
runtime, picks the Hub bundles (hot-updated or built in), starts the Hub
server and keeps it running, and keeps navigation to the Hub inside the
window.

- `src/` is the library, checked by Verus. The launcher's decisions are
  state machines there (`bun_manager::BunInstall`, `bundle_resolver::BundleLookup`,
  `hub_manager::HubStart`, `supervisor::HubLoop`, `region::RegionDetection`)
  that say, for each outcome of outside work, what to do next.
- `app/` is the Tauri program around it: the window, file and network
  access, processes and signals. It performs what the state machines ask
  and hands back what happened.
- `tests/` runs the library on concrete values.
