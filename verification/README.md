# beth-idle

Suspends a Google Compute Engine machine while it runs, after a window of time in which no
new block was seen, and begins a new cycle when the machine resumes.

- `src/` is the verified library: durations and instants (`time`), the idle timer
  (`scheduler`), the monitor as a state machine (`monitor`) and what holds of its whole
  histories (`history`), retries with backoff (`retry`), configuration (`config`, `cli`),
  request identifiers (`request_id`), and metadata values, machine identity and suspension
  requests (`gce`, with `text`).
- `app/` waits, polls, talks to the metadata server and to Compute Engine, and does what the
  library decides.
- `tests/` run the library.

Random identifiers and their text form come from the `uuid` crate, the text of an HTTP
status from `reqwest`, quoted strings and the text of a span from std's formatting. What is
claimed of them stands with the functions in `request_id`, `gce`, `text` and `time` that make
these calls. All else in `src/` is proved.
