# playground

The verified core of a set of small web services and tools around tasks,
books and todos: request validation, the error bodies the services answer
with, the vocabulary of the message streams between the services, the
settings read from the environment, duplicate detection over number arrays,
and the plans the command-line tool carries out.

- `src/` is the library; every function in it is checked by Verus against
  its contract.
- `tests/` runs the library on concrete values.
- `app/` holds what touches the world: environment variables, child
  processes, the argument parser, the HTTP endpoints that send requests to
  the cache server and wait for replies, the stream and publish/subscribe
  consumers, and the JSON forms of the library's
  types.
