# memcache_async_rs

A client for the memcached binary protocol. The library under `src/` holds
the protocol logic, verified with Verus:

- `codec::header`: the 24-byte packet header, its big-endian encoding and
  decoding, and the command, direction and status codes;
- `codec`: parsing of the responses to get and set requests;
- `client`: the value traits and the request packets of get and set;
- `transport`: the table of requests waiting for responses and the
  decisions of the loop that drives a connection.

`app/` holds the asynchronous parts around it (tokio sockets, channels and
the connection task), and `tests/` the tests.
