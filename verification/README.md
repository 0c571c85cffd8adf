# Animatrix

A local-first studio for AI-assisted video production: channels and their brands, projects,
queued generation and render jobs, registered assets and an event history, with model
requests routed to the provider that suits them best.

## Layout

- `src/` is the library, verified with Verus. Each public function states what it returns or
  changes, and the laws that span several functions are proof functions named `law_*`.
  - `base`, `domain`: identifiers, status enums, the application error, channels, projects.
  - `ai`, `router`: the built-in providers, provider health, and request routing.
  - `jobs`: the job lifecycle, the queue and the worker.
  - `assets`, `paths`: registering files as assets, and reading file names and extensions.
  - `events`: event types, event records, and how a stored event row reads back.
  - `project`, `storage`, `studio`: project creation and the scene-job run, the data location
    and how stored channel and project rows read back, and the dashboard's state and command
    language.
  - `text`: trimming, parsing and formatting of text.
  - `outside`: the calls into `uuid`, `chrono`, `dirs` and `serde_json`, each with its trusted
    contract.
- `tests/` runs the library on concrete values.
- `app/` is the program around it: SQLite storage (`sqlx`), the event log and outbox, the
  studio workflows, the command-line dashboard and the `eframe` window.

Identifiers are the 128 bits of UUIDs, and a time is a `Timestamp`: whole seconds since the
Unix epoch and the nanoseconds past them, as `chrono` keeps it. `app/` converts them to `uuid`
and `chrono` values at its edges.
