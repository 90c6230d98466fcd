# async-lsp

A verified core of an asynchronous Language Server Protocol (LSP) framework.

The library in `src/` holds the logic: framing of messages, the main loop, the sockets, the router,
and the middlewares for the lifecycle of servers, concurrency and cancellation, panics, tracing,
monitoring the client process, and steering between services. Each function states in a contract
what it does, and the laws that hold of the library as a whole stand beside them as proof functions
whose names begin with `law_`.

The core is `LspService`, the abstraction of either a Language Server or a Language Client. It asks
for readiness, and handles requests, notifications and events. What a service does is up to its
author: relations such as `calls` and `notifies` say how it may answer, and the contracts of the
middlewares are stated over those of the services they are put around.

The library does no input or output and never waits. `app/` is the ordinary Rust around it: it reads
and writes the channels, polls futures, waits for processes, and turns values into JSON and back.

What the library calls of other crates and of the standard library stands behind items whose
contracts are taken on trust. Each has a comment that says what it claims. Many claim nothing: what
they return depends on the moment, and a relation such as `offered` or `found_aborted` only records
what was called and what came back.
