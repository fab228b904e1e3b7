# web_starter

The rules behind a site where game masters of Earthdawn (4th edition) keep
creatures, their attacks, powers, maneuvers and talents, and masks that can be
laid over a creature.

- `src/` is the library, verified with Verus: text helpers (trimming, slugs,
  the page language), random codes with dashes, stat lines and masks, the
  records and their builders, and what each web handler decides (the records
  it stores, who may change or delete a record, which template shows a
  creature), plus the context every page starts from.
- `tests/` runs the library on concrete values.
- `app/` is the web site itself: actix-web handlers, the diesel models that
  read and write PostgreSQL, and `main`. Each handler reads what it needs,
  hands plain values to the library, and writes and answers with what comes
  back.
