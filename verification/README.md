# over_there

Software management and execution "over there": encryption of the messages
exchanged with a remote server, and the server's bookkeeping of the files it
opens and the processes it starts for its clients.

The library under `src/` is verified with Verus:

- `crypto`: keys and nonces, the AES-GCM, AES-GCM-SIV and AES-SIV
  bicrypters (the ciphers themselves are the `aes-gcm`, `aes-gcm-siv` and
  `aes-siv` crates), a bicrypter that refuses reused nonces through an LRU
  cache (`lru`), and bicrypters that do nothing or call a user's function.
- `server`: the file system manager (which files are open, under which ids
  and signatures, and which paths lie within its root), the times to live of
  files and processes, what the server knows of each process, and the request
  handlers, with the routing of requests (nesting depth, sequences that stop
  at the first failure, batches). A handler decides what to reply, or
  describes the file system or process work to do; a second step takes the
  outcome of that work and gives the reply. Paths are confined to the
  manager's root: once `.` and `..` are resolved by their text, the path
  must still lie within the root. Open files are looked up by canonical
  path, and no two are recorded at one path.

`app/` carries out that work with `tokio` (canonicalizing paths, routing
requests through the library's decisions), shares a bicrypter between an
encrypting and a decrypting half, and gives keys, nonces and associated data
their serialized forms.
