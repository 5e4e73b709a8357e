# linear_tasks

A template-based terminal task manager for Linear: recurring annual, monthly
and weekly task templates are kept locally and generated into day-of-week
projects, with time-horizon and daytime-block labels.

The library under `src/` holds the rules of the tool, each function with a
Verus contract:

- `text` – character-level string helpers (splitting, trimming, joining, case).
- `calendar` – dates as day numbers, weekdays, and the calls into chrono.
- `models` – horizons, daytime blocks, priorities and the Linear objects.
- `templates` – task templates, the template store and the generation history.
- `config` – configuration paths, API key choice, `config set`, missing labels.
- `commands` – the decisions of the commands: days, weeks, lookups, generation.
- `display` – what the views show: truncation, labels, urgency, grouping, dashboard.
- `api` – GraphQL input fields, response checks, and nodes turned into values.

Laws that relate several functions are stated as public proof functions named
`law_*`.

`app/` is the command-line program around the library: argument parsing,
files, terminal output, prompts and the HTTP client.
