# envoy_locality

Routing and workload logic of a locality-aware workflow deployment: a
frontend takes workflow requests, registers them as pending and starts the
first compute service; each service produces or processes a payload and
forwards the record to the next service (or back to the frontend), keeping
designated hops on the local host through the `x-stay-local` and
`x-force-local` headers.

- `src/` is the verified library (Verus): the pending-request table, the
  hop and header decisions, URL and decimal formatting, the produce and
  process steps, and the HTTP answers, each with its contract.
- `app/` is the executable around it: the HTTP servers and clients, file
  I/O, logging and the command line. Run it as `frontend` or as
  `service -n <number> -p <port> -t <produce|process>`.
- `tests/` exercises the library on concrete values.
