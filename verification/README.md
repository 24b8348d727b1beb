# ark (`ark lsp` and the Zed extension), verified decision logic

`ark lsp` runs ark's R language server as a standalone process speaking LSP
over stdio: it boots an ark kernel as a child process, starts the kernel's LSP
server over a Jupyter comm, and pumps bytes between stdio and the server's TCP
stream. The Zed extension launches it.

- `src/` — the verified library (Verus): argument parsing (`args`), the
  JSON model and pretty-printing of flat objects (`json`), the
  byte-pump copy loop (`pump`), the bridge's lifecycle (`lifecycle`), starting
  the LSP server (`lsp_connection`), the sidecar kernel's boot arguments and
  polling/shutdown decisions (`sidecar`), and the Zed launch command
  (`zed_extension`). Each module states its contracts and laws.
- `app/` — the unverified runtime: processes, sockets, threads, stdio and the
  Zed extension API, driving the library's decisions.
- `tests/` — tests of the library.
