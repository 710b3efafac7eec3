# docker_owl

Watches docker containers and runs plugins on those whose labels ask for
them: `Acme` obtains Let's Encrypt certificates, `Template` renders template
files with the container's details.

- `src/` is the verified library (Verus): label splitting (`text`), the
  container label map (`labels`), the docker endpoint and filters (`docker`),
  the plugins and their settings (`plugins`), and the run loop's decisions
  (`run_step` in `lib.rs`).
- `app/` is the program around it: command line, environment, the docker
  daemon, the ACME exchange, files, templates and the terminal.
- `tests/` runs the library on concrete values.
