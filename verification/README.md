# octodaemon

A daemon that reports on its host and on the Docker containers running there.

- `src/` is the verified library: the reply messages (`messages`), the host
  report (`system`), Docker's network and the container reports and
  descriptions (`docker`, `docker::containers`), the listening address
  (`server`) and the two services that answer clients (`handlers`).
- `app/` is the program around it: logging, the Docker client and its calls,
  the sysinfo reads, and the request handlers that feed the library.
