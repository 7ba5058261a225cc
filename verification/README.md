# vcs_core

A verified core for talking to version-control forges and to local git
repositories.

- `src/` is the library, written in Verus: the builders of repositories, issues,
  code reviews, releases and pipelines; the provider registry; the manager and its
  drivers; retry, rate-limit and middleware configuration, and the machine that
  drives one send through a composed transport (`manager::send`); the requests
  that the transport-backed services and the provider runtime send; and the parsers of what
  git prints (`diff`, `log`, `blame`, `status`, `worktree list`, `merge-tree`).
  Each public function states its result over a model of plain values; the laws
  of the library stand as public proof functions beside the functions they speak
  of (`law_*`).
- `tests/` runs the library on concrete values.
- `app/` is the unverified rest: running git, sending requests through
  transports, the asynchronous services, and serde forms of the library's data.
