# pocket_relay_mitm

A man-in-the-middle proxy for the Blaze packet protocol of Mass Effect 3:
a redirector that points game clients at this machine, and a proxy that
forwards (and logs) every packet between the clients and the official
servers, whose address it retrieves from the official redirector.

- `src/` is the library, verified with Verus: packet headers and the
  request/response relation (`packet`), component identification
  (`components`), redirector values (`models`), the redirector's answers
  (`redirector`), the retriever's session, response matching and host lookup
  decisions (`retriever`), the relay's forwarding decision (`relay`), the byte layout of
  the redirector values written with `blaze_pk`'s tagged data writer (`tdf`),
  and properties relating them (`laws`). `opaque` declares the outside types the
  library carries without looking inside.
- `app/` is the program around it: sockets, TLS, tasks, HTTP DNS, logging,
  and the decoding of the instance details through `blaze_pk`'s reader.
- `tests/` exercises the library on concrete values.
