# task_util

Keeps projects, tags and tasks described in Nickel definition files in step
with outside tools (Taskwarrior, Timewarrior, a Radicale calendar store and the
super-productivity app) and records the time spent on each task.

- `src/` is the library, verified with Verus: the iCalendar text of a task
  (escaping, line folding, the VTODO properties), the Taskwarrior and
  Timewarrior records, the Radicale store layout, the requests to
  super-productivity and the bookkeeping of the ids it hands out, the state
  changes of starting and stopping a task, the paths and command lines the
  tools are run with, and the time recorder's interval and log path.
- `app/` holds the two programs (`task-util` and `time-recorder`): argument
  parsing, files, processes, the HTTP and file-based requests, and the serde
  forms of the library's types.
- `tests/` runs the library on concrete values.
