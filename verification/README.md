# rs_bff

The verified core of a backend-for-frontend gateway that exposes an HTTP
API and calls gRPC services behind it.

- `src/` is the library, verified with Verus:
  - `config` — the configuration and the lookup of upstream services by name;
  - `error` — the gateway's errors, the HTTP status each is answered with,
    and the JSON body of that answer;
  - `channel` — the plan of an upstream endpoint (address and connection
    settings), and the errors of preparing and connecting it;
  - `endpoint` — a tonic endpoint that is only made from a plan and keeps it;
  - `reply` — the replies of the router's own handlers;
  - `greeter` — the answer of the greeter endpoint;
  - `user` — the user records of the user endpoints;
  - `text` — decimal numbers and JSON string literals.
- `app/` is the program around it: reading `app.yaml`, logging, the axum
  router and server, the lazily connected gRPC client, metrics and
  shutdown.
- `tests/` runs the library on concrete values.
