# runner_orchestrator

An orchestrator for Forgejo Actions runners in the Hetzner Cloud. It creates a server when
tasks are waiting, and deletes it when there are none, at a time that wastes little of a paid hour.

The logic is a library verified with [Verus](https://github.com/verus-lang/verus). It performs no
input or output: it says which request comes next and makes sense of the reply.

## Layout

- `src/` is the verified library.
  - `pass` runs one pass of the orchestration, step by step.
  - `orchestrator` and `state` decide when a server is created, kept and deleted.
  - `forgejo`, `hetzner` and `http` hold the requests to the two APIs and what becomes of replies.
  - `cloud_init` and `base64_text` hold the configuration that a new server starts with.
  - `csv_log` writes the usage log; `csv_reading` states what a reader finds in it.
  - `config`, `text` and `time` hold settings, decimal notation and points in time.
- `tests/` runs the library on concrete values.
- `app/` is the program around it: configuration and state files, HTTP, logging and the polling loop.

## What is proved

Every function of the library has a contract that says what it returns. Proof functions whose names
begin with `law_` state what holds of the library as a whole, for example:

- where record and servers are in step, they stay so, with at most one server, through every
  creation and deletion whose reply could be read (`pass::law_pass_keeps_one_server`); a server
  whose creation was answered by a reply that was lost or could not be decoded is not on record;
- a server is only created for waiting or running work (`pass::law_server_only_for_work`);
- only a server without work is deleted, and not before its minimum runtime
  (`pass::law_only_idle_server_deleted`);
- the log reads back as what was logged (`csv_reading::law_log_reads_back`), to a CSV reader to
  which only a line feed ends a record, and as long as no project holds a comma or a line feed or
  begins with a quote: only reasons are escaped;
- the search for repositories finds those of all pages (`forgejo::law_search_indexes_all_pages`);
- the files of a new server get exactly the bytes meant for them
  (`cloud_init::law_files_get_their_bytes`).

## What is trusted

- `text`: `String::push` appends a character.
- `time`: chrono's clock reading, and its RFC 3339 notation, whose digits are named but not spelled
  out.
- `base64_text`: the encoder of the base64 crate writes standard Base64.
