# vfs_apis

A virtual file system for HarmonyOS apps that fuses a local workspace with
the `applicationData` container of Huawei Cloud Drive under one path space.

- `src/` is the verified library (Verus): error codes, the access token and
  workspace stores, path resolution for both sides, the fusion rules of
  every operation (which copy a read or a stat takes, the steps of a write,
  when a removal or a directory counts as done), the merge of local and
  cloud listings, the folder walk through the container, the framing of the
  drive's requests and the reading of its answers, and the routing of
  requests pushed by a peer.
- `app/` is the platform side: process-wide state behind locks, the HTTP
  client of the Remote Communication Kit, the WebSocket client, local file
  I/O, the asynchronous operations that run the library's decisions, the
  absolute-path adapter, and the C and NAPI interfaces.
- `tests/` exercises the library on concrete values.
