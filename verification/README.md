# remoc

Channels, remote functions and remote objects that work between endpoints, with their
decisions verified.

`src/` is the library. It holds what the channels decide and what they keep track of: how
values are encoded and split, what a message on the back channel means, which errors are
reported when and to whom, how halves of channels travel, how rate limits combine, how calls
are traced and answered. Nothing in it waits or talks to a network. Where the outcome of such
work matters, it is an argument: the functions say what follows from every outcome and what
to do next.

`app/` performs what the library decides within a process, with tokio, wokio, tracing and
serde: it waits for local queues and watched values, responds to calls and commits values over
such queues, opens spans and holds the forms that are serialized. The tasks that carry values
over a connection (`SendTask`, `RecvTask` and the like) are driven by whoever owns the
multiplexed connection, which is not part of this project.

`tests/` runs the library on examples.

| Module | Contents |
| --- | --- |
| `varint`, `wire`, `text`, `util` | encodings and texts |
| `chmux`, `codec` | errors of the connection and of the codecs |
| `rch` | the channels: `base`, `mpsc`, `oneshot`, `broadcast`, `lr`, `bin`, `watch` |
| `rfn` | remote functions |
| `robj` | remote objects: the read/write lock |
| `robs` | errors and change notification of observable collections |
| `rtc` | remote trait calls: requests, responses, monitors |
| `tracing` | tracing contexts and spans of calls |
| `versioned` | values with an old and a current form |

Proof functions whose names start with `law_` state what holds across several functions.
