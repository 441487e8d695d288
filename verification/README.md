# pk

The verified core of `pk`, a service that dispatches download tasks to nodes, follows what the
nodes report, and shows it live on a web front end.

`src/` is a library in Verus. Its functions carry contracts over mathematical models; `src/laws`
states what holds of the library as a whole.

| Module | What it does |
| --- | --- |
| `auth` | decides whether a request needs a token and carries the right one |
| `comm` | how `pk` registers with the runtime, and what component events change |
| `manager`, `progress` | the connections of nodes and their live states |
| `client`, `statement` | what a message from a node does, and the SQL that it leads to |
| `notify` | messages to the nodes |
| `session` | the life of a connection |
| `frontend`, `broadcaster` | the front end's connections, and when and what is pushed to it |
| `task_config` | the configuration that a node receives with a task |
| `models`, `json`, `text` | plain data, JSON values and text |
| `ids`, `clock` | identifiers and time stamps, from the `uuid` and `chrono` crates |
| `laws` | theorems over several functions |

Everything is proved but what the functions in `ids` and `clock` marked as trusted say of those two
crates.

`app/` is the service around the library: HTTP, WebSockets, the database and the link to the
runtime. It waits for events, asks the library what to do, and does it.
