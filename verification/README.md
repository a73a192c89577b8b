# pvc_migrator

Copies the contents of a Kubernetes PersistentVolumeClaim to a local tar
file (`backup`) or from a local tar file into a PVC (`restore`), through a
short-lived `busybox` pod that mounts the PVC and runs `tar` over the `exec`
API.

- `src/` is the verified library (Verus): the course of a run
  (`session`), the chunked data transfer (`transfer`), the runner pod and
  the judgement of its watch events (`runner_pod`), the PVC check and the
  size estimate (`pvc`), pod-name suffixes and progress layout (`util`),
  number rendering and parsing (`text`), and the error messages (`error`).
- `app/` is the command-line program around it: argument parsing, the
  Kubernetes client, the network and file I/O, progress drawing and
  logging. It performs the actions that the library's state machines ask for
  and reports back what happened.
- `tests/` holds the tests of the library.
