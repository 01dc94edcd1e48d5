# blec

The core of a Bluetooth Low Energy client, verified with [Verus](https://github.com/verus-lang/verus).

`src/` holds the decisions of the client: what is connected, which devices were found, who is
told, and what to ask of the Bluetooth backend next. Each call of the handler is a conversation:
the library asks for one thing at a time, the host does it and hands back what came of it. Every
function states what it does, and `src/session.rs` states what holds over a whole session.

`app/` is the host: it talks to btleplug, or to the Kotlin side on Android, runs the tasks and
channels, and offers the client as an async API, as Dioxus hooks and as a Tauri plugin.

| Module | What it is about |
|---|---|
| `handler` | the state of the client, and its calls: `connect`, `disconnect`, `discover`, `discover_services`, reading, writing and subscribing |
| `exchange` | what the handler and its host tell each other |
| `index`, `filter` | the devices found, and which of them a scan reports |
| `session` | what holds of a handler over a whole session |
| `android` | the Android backend: its state, its bridge and its payloads |
| `ble`, `plugin` | what a user interface shows, and when a plugin is ready |
| `models`, `error` | the data and the errors |
