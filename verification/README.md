# keeps_core

The core of a local notes-and-reminders organiser, written in Verus: Verus
checks every function in `src/` against its contract. A few have no
`ensures`, because what they return is wholly what an outside party answers
— a use case that only forwards to storage (`NoteUseCases::create`,
`SearchUseCases::recent_queries`, …), the device clock (`SystemClock::now`) —
or is an opaque `uuid::Uuid` (`from_uuid`, `as_uuid`).

- `src/domain/` — the entities and their rules: notes, tasks, folders and
  tags, reminders (recurrence, time zones, snooze, preset times, sounds),
  the spoken-phrase parser behind dictated notes, link previews read from
  HTML, search-expression building, backups, identifiers and the clock.
- `src/application/` — the use cases: notes, search, tasks, folders and tags,
  link previews (the cache asked first), the app icon, dictated notes (the
  note kept when its alarm cannot be armed), and a note's reminder
  (checked before storage or the platform is touched, its alarm armed from
  inside the save and taken back when the save fails), with the wire shapes
  they answer in. Storage, the network and the platform are traits the use
  cases are given.
- `src/error.rs` — the error taxonomy, with its codes, sentences and
  descriptions.
- `src/text.rs` — the text vocabulary the contracts are written in.
- `tests/` — the test suite, run against the compiled library.
- `app/` — what is not verified: JSON wire forms, the stored form of the
  dictation settings, `chrono` conversions, file-system error mapping, and
  search hits, which carry a floating-point rank.

Calls into `chrono`, `chrono-tz`, `uuid`, `url`, `base64` and `serde_json`
stand behind small trusted wrappers whose contracts say what the crate
documents; each says in its doc comment what is assumed.
