# IncidentBench

A benchmark harness that replays production incidents against search and analytics platforms:
events surge through Kafka while analysts query, and the harness measures how latencies,
errors and backlogs behave before, during and after.

`src/` is the logic of the harness, written in Verus. Every function states in its contract
what it returns or changes, and Verus proves it. `app/` is the program around it: command
line, Kubernetes, Kafka, gRPC, HTTP, SQL, files and the terminal. `tests/` runs the library.

## Units

The library holds no floating-point numbers.

| Quantity | Unit |
|---|---|
| Latencies and durations | nanoseconds |
| Rates of queries, measured | millionths of a query per second |
| Rates of queries, aimed at | millionths of a millionth of a query per second |
| Rates of a worker | thousandths per second |
| Weights of groups and queries | parts per billion |
| Scales, shares of a processor | parts per million |
| Means and ratios | exact quotients (`decimal::Ratio`) |

`app/units.rs` converts at the edges.

## Modules

Foundations: `text`, `decimal`, `product`, `model`, `json`, `docs`, `sorting`, `order`, `clock`,
`chance`, `seeds`.

Scenarios: `scenario` holds the types, `validation` says what is wrong with one, `wellformed`
what one must be, `rates` scales it and shares its load among workers, `mix` says how likely
each query is.

The platform under test: `adapter`, `mach5` (preparing), `teardown` (cleaning up), `execution`
(queries), `dsl` (the query language).

The operator: `crd`, `resources`, `configmaps`, `plan`, `lifecycle`.

The workers: `barrier`, `phase_controller` and `conductor` (phases), `generator` with `fields` and `events`
(synthetic events), `ingest`, `session` with `tally` and `failures` (queries), `ratelimit`,
`proc_metrics`, `snapshot`. `ingest_loop`, `rate_loop` and `session_loop` are their main loops,
step by step: what has happened goes in, what is done next comes out. So is `conductor` for the
controller that leads them through the phases.

The aggregator: `bucket`, `aggregator`, `results`, `lag`, `latency`; `aggregator_laws` and
`latency_laws` prove what holds at all times.

Reports: `metrics`, `criteria` with `threshold`, `groups`, `categories`, `json_report`,
`html_report`; `html_laws` proves that the page loads nothing from elsewhere.

The command line: `console`, `live`, `download`.

## What is trusted

Random numbers, hashes, dates, lower case, the reading of JSON tables and the writing of JSON
texts come from other crates
or from the standard library. Each such call stands in one small function marked
`external_body` (in `chance`, `seeds`, `clock`, `console`, `configmaps`, `events`,
`validation` and `text`), whose comment says what its contract claims. Where a result cannot be described in a
few lines it has a name, and the contracts above it speak of that name.

## Limits

- Queries are drawn by the mix of the worker's group, else by that of the phase, else by their
  own weights; where none has a weight, they are equally likely.
- Numbers of a distribution are spread evenly above the mean, not log-normally.
- Weights of generated values and the numbers of a distribution are read to eighteen decimal
  places. Values are drawn by these weights as whole numbers, not as floating-point ones.
- Quotients in documents are cut to eighteen decimals where `events::render` writes them.
- A run counts as recovered by its seconds: one whose latency does not come back has a recovery
  time of one second more than was measured.
- The aggregator tells a saturated harness by single workers, the report by its points: there,
  ten seconds in a row in which some worker was above its limit.
- Of the rules that a valid run has to meet, those on clock accuracy, crashes, worker
  completeness and Kafka's health are not evaluated: the points of a run do not tell. The least
  duration of a phase is checked when the scenario is validated.
- A report covers at most 67,108,864 seconds, a little more than two years: for so long the
  quotients of means fit 128 bits.
