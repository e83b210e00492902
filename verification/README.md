# secret-service

A small service that distributes secrets to hosts over SSH.

A client announces its host name to the server by UDP broadcast and repeats
the announcement every few seconds until it gets an answer.  The server looks
the name up in its JSON configuration; for a configured host it connects over
SSH, checks the host's key against a trust-on-first-use table kept in SQLite,
and places every configured secret on the host: the secret is the output of a
local shell command, uploaded over SFTP into a fresh directory under `/tmp`,
moved to its target path and made readable by its owner only (with `--root`,
through `sudo` and owned by `root`).  It then tells the client `ok`.

Layout:

- `src/` is the verified library (Verus).  It holds the decisions of the
  service as functions from state and event to the next action, with
  contracts: `server` (what a datagram leads to), `client` (announcing and
  retrying), `hostkeys` (trust on first use, with the laws that govern it),
  `remote` (running a command on the host, creating directories, the steps of
  placing a secret), `command` (the outcome of a local command), `config`
  (the configuration and a map with unique names), `args` and `text`.
- `app/` is the program around it: command-line parsing, sockets, SQLite,
  SSH and SFTP, which carry out the actions the library decides on.
- `tests/` exercises the library on concrete values.
