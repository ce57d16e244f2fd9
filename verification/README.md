# loom_mcp

The decisions of Loom's MCP (Model Context Protocol) endpoint, written in
Verus and proved against their contracts: the prompt catalogue and prompt
filling, the resource catalogue and the routing of `loom://` URIs, the tool
catalogue and tool dispatch, the weaver, thread and repository access rules,
the texts and audit entries the weaver tools answer with, and the JSON
contents of the resources with the checks taken around fetching them.

- `src/` is the verified library. Each module states its model as spec
  functions and views; the public proof functions named `law_*` state what
  holds across calls (routing of listed prompts, tools and URIs, the access
  tables, what the list filters keep).
- `tests/` runs the library on concrete values.
- `app/` is the unverified shell: JSON (de)serialisation with `serde`, the
  `Backend` trait over the provisioner, stores and audit log, and the async
  handlers that run the library's steps around those service calls.
