# kasmcloud host

A host runs WebAssembly actors and capability providers on a lattice and keeps
them in step with the `Actor`, `Provider`, `Link` and `KasmCloudHost` resources
of a Kubernetes cluster.

`src/` holds what the host decides, as a library verified with Verus:

- `host` is the state of a host. Its methods take one request each, change the
  state, and hand out what is left to do: subscribe to a topic, start a process,
  send a message. Where that has been done, another method takes note of it.
- `controller` resolves links to their ends, counts who asks for each, and says
  what is written to the status of each resource and when it is looked at again.
- `handler`, `actor` and `wire` are about calls: where they go, whether they may
  be made, how they are signed, sent, checked and answered.
- `blobstore`, `keyvalue`, `messaging` and `response` are what providers are
  asked and what their answers stand for.
- `config` turns settings into what a host is started with.

Contracts speak of the views of these types. What must hold of several requests
together is stated as public proof functions next to them, such as
`delete_undoes_add` or `reconciling_settles`. Calls into other crates stand behind
small functions marked `external_body`, whose doc comments say what is claimed of
each.

`app/` is the program around the library: it talks to NATS and to the cluster,
runs processes and actors, and carries out what the library hands out.
