# nanocld

The nanocl daemon manages clusters of containers ("cargoes") on top of
docker, with its records kept in a postgres store and an HTTP API.

- `src/` is the verified library: keys and records of namespaces,
  clusters, cargoes, networks and variables; configuration merging;
  validation of requests; classification of docker's answers; the framing
  of streamed progress; the decisions of image builds and file downloads.
  The functions state their behaviour in `requires`/`ensures` and Verus
  proves it. The calls into the `url` and `mustache` crates stand behind
  small trusted wrappers; what their results are is, where the crates'
  sources show it, stated, and otherwise named, as documented where they
  are declared.
- `app/` is the daemon around it: command line, configuration file,
  docker, the store, github and the HTTP handlers.
- `tests/` runs the library on concrete values.
