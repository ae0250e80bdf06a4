# adguardhome_mcp_rs

The verified core of an MCP (Model Context Protocol) server for AdGuard Home.

- `src/` is the library, checked by Verus: the configuration and instance
  selection, the requests sent to the AdGuard Home control API, the tool
  registry, the decisions of the MCP dispatcher and of the `manage_tools`
  tool, HTTP authorisation, the decisions of each tool (`manage_dns`,
  `manage_protection`, `manage_filtering`, `manage_clients`,
  `manage_system`, `sync_instances`), and the synchronisation of a master
  instance to its replicas.
- `app/` is the program around it: command line and configuration files,
  the HTTP client, JSON encoding, the stdio and HTTP/SSE transports, file
  backups and the background synchronisation loop.
- `tests/` runs the library on concrete values.

The tool registry holds its entries in a vector kept sorted by name, with
that order as a type invariant, and is viewed as a map from names to
entries. vstd's `HashMap` and `HashSet` were not used: their lookup
specifications hold only for key types for which vstd establishes
`obeys_key_model` (integers, `bool` and boxes of them), not for `String`,
and establishing it for `String` would take an assumption, which this
crate does not make. Listings must also come out sorted by name, which the
sorted vector gives directly.
