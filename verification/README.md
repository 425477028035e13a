# repository

The persistence layer of a runtime-observability server: every SQL statement
against organizations, projects, applications, their agents, the runtime events
they report, and the notifications and policies built on those.

`src/` is the library, verified with Verus. A repository method takes plain
arguments and gives a `Statement`: its text, the values of its placeholders in
order, and what it asks back. Each method states all three exactly, and the
statements on a tenant's rows state that they hold the tenant's filter as a
condition, with the tenant's path bound to it.

- `statement`: statements, the values they bind, and their encoding for the
  driver.
- `driver`: the calls into sqlx and the outside types, with what is taken for
  granted of them.
- `tenant`: the tenant filters, and what it means for a statement to filter by
  a tenant path.
- `text`: how texts are put together, and which columns they give back.
- `insert`: rows to write, each column beside what it is given.
- `upsert`: rows to merge into stored ones, and what the table then holds.
- `condition`: conditions on rows, and the rows that they select.
- `update`: changes of rows, and what the rows then hold.
- the other modules: one repository each.

What is proved of rows is what the statements are written to mean. That the
database takes their texts so is not part of the library.

`app/` runs the statements on a database through sqlx. `tests/` checks the
library from outside, with the real driver linked.
