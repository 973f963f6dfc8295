# therock_metrics

A small HTTP service that answers every request alike and reports each one over
OTLP. It has ten families of instruments, and in each family one instrument for every
aggregation.

- `src/` is the library: configuration, metadata, resource, temporality,
  aggregation, instruments, and what one request records. It is verified with Verus.
- `app/` is the program: the HTTP server, the exporter pipeline, and the registered
  instruments.
- `tests/` runs the library against the real OpenTelemetry and tonic crates.

Calls into other crates stand in `src/` behind small functions whose contracts are
believed, not proved; the doc comment of each names the call and what is claimed of it.
