# operation_center

A task-tracking web service for an operation center: main tasks run by
workers, their ordered subtasks, the settings files of installation
packages, backups, and the web front end.

- `src/` is the library, verified with Verus. It holds the records and
  their field rules, the identifier generator, the service error, and every
  decision the endpoints take: which record to store, what to answer, which
  archive entry a file becomes. Subtask creation and backups, which
  alternate database or file-system work with decisions, are state
  machines: each step takes what the outside world answered and returns the
  next thing to do.
- `app/` is the program around it: configuration loading, the database
  (`sea_orm`), the HTTP server (`actix-web`), processes, files and the
  embedded front end. It performs the actions the library asks for and
  hands the answers back.
- `tests/` exercises the library on concrete values.
