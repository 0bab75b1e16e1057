# betteruptime

An uptime monitor: users register websites through an HTTP API, a publisher
moves due websites from a Redis schedule onto a job stream, workers check them
over HTTP and record outcomes in Postgres, and a notifier e-mails alerts when a
site goes down, retrying failed e-mails later.

- `src/` is the verified library (Verus): request validation and answers
  (`api`), bearer tokens and claims (`auth`), the schedule and job fields
  (`schedule`), stream entries (`stream`), the worker's decisions (`jobs`), the
  store writes that follow a check (`analytics`), the notifier's alert and retry
  protocol (`alerts`, `email`), and text helpers (`text`, `status`, `bytes`,
  `clock`, `http`).
- `app/` runs the programs (`api`, `publisher`, `consumer`, `notifier`): HTTP
  serving, Postgres, Redis, SMTP and token signing, each step deciding through
  the library.
- `tests/` exercise the library on concrete values.
