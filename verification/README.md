# schani_import

The import service of the schani photo library, as a verified library with a
thin program around it.

- `src/` (verified with Verus)
  - `models`: the rows of the `imports` table, the request that starts an
    import, and the data that hands a finished import to the library.
  - `service`: the queries and store uploads that the import service performs.
  - `flow`: the state machine that each web request runs between its I/O steps.
  - `store`: the form, the addresses and the state machine of a transfer of an
    image to the store.
  - `messaging`: the broker operations that announce an image to the
    processing queue, and the message body.
  - `web`: the routes, the import id in a path, the handlers' starting points,
    the service settings and the log line format.
  - `decimal`: the decimal text of integers.
- `app/`: the program: environment, logging, gotham router and middlewares,
  diesel queries, the store and library clients, and the AMQP connection. It
  performs the actions that the library's state machines ask for.
- `tests/`: tests of the library on concrete values.
