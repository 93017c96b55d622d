# pm-sdk

A project-management SDK core for Linear (GraphQL) and Asana (REST),
written in Verus.

The library (`src/`) holds the domain model and everything the adapters
decide: which request each operation sends (method, URL, headers, JSON
body), how an answer is judged (data, API error, parse error), and how the
answer's JSON is read into issues, projects, teams, comments and search
results. Each of these is a verified function whose contract states its
result exactly.

- `model.rs`: issues, projects, teams, comments, pages, the customer
  issue filter.
- `json.rs`: JSON values and the lookups the payloads are read through.
- `http.rs`: the planned request, and the next step of an operation.
- `linear.rs`, `asana.rs`: the two adapters.
- `error.rs`, `text.rs`: errors and character-level helpers.

The program in `app/` sends the planned requests with `reqwest`, converts
JSON to and from `serde_json`, implements the async `PmAdapter` trait on
top of the library, and provides the `pm-sdk` command line.
