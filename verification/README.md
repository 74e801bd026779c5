# ts3plugin

A library for writing TeamSpeak 3 plugins in Rust, with its bookkeeping
proved correct by Verus.

TeamSpeak calls a plugin through C functions on every event (a client
moved, a channel was created, a text message arrived, ...). The library
keeps a model of the servers the client is connected to, their channels and
their visible connections, brings that model up to date on each event, and
hands the plugin a view of it.

Layout:

- `src/` — the verified library.
  - `ids.rs`: ids and small value types.
  - `model.rs`: the cached data of servers, channels and connections, the
    api that holds them, and read-only handles on them.
  - `events.rs`: what each TeamSpeak event changes in the api, before and
    after the plugin is called.
  - `plugin.rs`: the `Plugin` trait that a plugin implements.
  - `conversions.rs`: flags, buffers and strings of the C interface.
  - `codegen/`: the descriptions of the properties of servers, channels and
    connections, and the code that is generated for each property.
  - `laws.rs`: properties that span several functions.
- `tests/` — tests of the library on concrete values.
- `app/` — the C entry points, the calls through the function pointers that
  TeamSpeak hands over, and the `create_plugin!` macro.
