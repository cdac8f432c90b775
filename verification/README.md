# nativelink_retry

Retrying of store operations with exponential backoff.

`src/` is a library verified with Verus. It holds the decisions of a retry loop
and no waiting: the caller reports what an attempt came to and performs the step
that is handed back.

- `codes`, `error`, `config`, `duration`: the values that the decisions are about
- `hooks`: what a user supplies to wait and to vary the pauses
- `backoff`: the pauses between attempts
- `retrier`: a job that offers its attempts one after the other
- `wrapper`: a store whose operations are retried
- `cell`, `chunk`, `reader`, `upload`: operations that consume a stream, which
  every attempt gets from its beginning
- `file`: operations that read a part of a file, which every attempt goes back to
- `step`, `runs`: what a loop decides, and whole runs of it
- `retrier_laws`, `wrapper_laws`, `upload_laws`, `file_laws`: what holds of every
  run

`app/` runs the loops on Tokio: it waits, streams and reads files.
