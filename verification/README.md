# mnemebrain

Client for the MnemeBrain belief-memory server (both the Lite server and the
full backend), with its core verified by Verus.

## Layout

- `src/` — the verified library.
  - `models.rs`: the API's enumerations with their wire names (`as_str`,
    `from_wire`, and the proof that wire names are distinct), the frame-open
    request builders and their JSON bodies, and the response records that hold
    no floating-point data.
  - `json.rs`: a JSON document model (`JsonValue`, viewed as `Json`) in which
    request bodies are built; `f64` values travel as their bit patterns.
  - `request.rs`: one API call as plain data (`ApiRequest`: method, URL, query,
    body, response mode) and `response_step`, which decides from a status code
    whether a response is an error, a missing item, or a body to read.
  - `client.rs`: the client builder and the configuration it yields
    (trimmed base URL, `Bearer` header checked against HTTP's header rules),
    `CoreApi` with one planner per endpoint, and `retracted_beliefs`, which
    reads both shapes of a `/retract` answer.
  - `subclient/`: planners for the extended routes (sandbox, goals, policies,
    revision, attacks, reconsolidation).
  - `error.rs`: the error type and its messages.
  - `text.rs`: decimal rendering, trailing-slash trimming, header-value rules.
- `app/` — the asynchronous client around the library: it sends each planned
  request with `reqwest`, hands the status to `response_step`, and maps JSON
  to the typed records with `serde`. Types that hold floating-point numbers
  live here.
- `tests/` — tests of the library.
