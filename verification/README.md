# docker_native_manager

Docker contexts, and the connection to the Docker daemon of the current context, verified with Verus.

- `src/config.rs`: the configuration file, in which the current context is recorded
- `src/contexts.rs`: the contexts: list, look up, create, remove
- `src/connection.rs`: the way from the current context to a client
- `src/ssh.rs`: the SSH tunnel to a remote daemon
- `src/wsl.rs`: the forwarder to a daemon inside WSL
- `src/json.rs`: what the library relies on `serde_json` for
- `src/paths.rs`, `src/text.rs`, `src/failure.rs`: paths, text, and reports of failed steps
- `app/`: the file system, the processes and the Docker client around the library
