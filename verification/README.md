# scylla_session

The logic of a database session that serves clients through a plain interface on top of the
asynchronous `scylla` driver, verified with Verus.

- `src/`: the verified library. A call on a session is a sequence of steps: each takes an event
  and says what to send to the driver, or what to answer. The library also types the rows of a
  result, resolves the user defined types of a keyspace, and answers lookups in the schema.
- `tests/`: tests of the library on given values.
- `app/`: the C interface. It runs the driver's requests on a runtime, hands the replies to the
  library, and converts between the driver's values and the library's.

What is not proved but taken from outside stands behind a few small functions in `src/driver.rs`
(the driver's queries and prepared statements) and in `src/text.rs` (UTF-8).
