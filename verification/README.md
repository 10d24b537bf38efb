# socks_lib

The server side of a SOCKS version 5 connection, verified with Verus.

The library holds the messages and does no I/O. A reader such as
`v5::Stream::read_request` is handed the bytes that arrived so far and answers
with how many more to read or with what they say; a writer such as
`v5::Stream::write_response` answers with the bytes to send.

- `src/net.rs`: socket addresses as plain values.
- `src/v5/stream.rs`: the connection, its readers and writers, and the laws that
  tie them together.
- `src/v5/{method,address,request,response}.rs`: the messages, each with its
  bytes.
- `src/v5/buffer.rs`: the buffers of the `bytes` crate. Their contents are trusted
  to follow four short contracts, which are all that is trusted here.
- `app/`: the same stream over a transport of the `tokio` crate.
