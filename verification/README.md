# lambda_runtime_core

The decisions of an AWS Lambda runtime, verified with Verus.

`src/` is the verified library:

- `concurrency` — reading `AWS_LAMBDA_MAX_CONCURRENCY`, the concurrency limit, pool size and polling mode.
- `snapstart` — the SnapStart restore lifecycle as a state machine (LIFO teardown, `/restore/next`, pool reset, FIFO rebuild, error reporting), with its ordering and failure laws.
- `workers` — supervision of concurrent workers and the report of their exits.
- `api_call` — the outcome of sending a result to the Runtime API, and what is logged (the status and body of a non-success answer).
- `invocation` — the decisions of the event loops.
- `origin` — rewriting request URIs against the Runtime API endpoint.
- `api_client` — client builders and the pooled client whose pool is rebuilt once after a restore.
- `otel` — OpenTelemetry span fields and the cold-start flag.
- `rate_limiter` — call-site rate limiting.
- `http_adapter` — X-Ray header propagation and response conversion for HTTP handlers.
- `kafka` — Kafka events and their partial batch responses.
- `iot` — IoT Core custom authorizer responses.
- `runtime` — the runtime value: service, configuration, client, concurrency limit and SnapStart resources.
- `logging` — a logging middleware.

`app/` carries out what the library decides: the hyper client, the tokio event loops, the tower services and the serde-enabled types.

Not covered here: the HTTP entry points (`run`, `run_concurrent` and their `runtime` variants for HTTP handlers), the `tower::Service` impls of the HTTP adapters, and catching panics in the handler stack.
