# arma3_wiki

A verified model of the Arma 3 scripting command reference: the types that
describe commands (values, parameters, calls, syntaxes, versions), the parsers
that read them from the wiki's markup, and the tools around the wiki (the
website's command list, the report of a parse run, page edits, tracker issues).

Every function of the library under `src/` is proved by Verus against a
specification written over sequences of characters:

- `text` — the string operations the parsers use (`trim`, `split_once`,
  `lines`, `replace`, integer parsing), each with its specification.
- `version`, `version_order`, `since`, `branch` — game versions, their order,
  and the versions something appeared in; reading back a written version
  gives the version.
- `value`, `value_parser`, `value_display` — the wiki's types: reading
  `[[Array]] of [[Number]]s` and friends, and writing them out.
- `call`, `call_parser` — how a command is called (`control [[cmd]] [a, b]`),
  with repeated patterns (`[var1, var2, ...]`) recognised.
- `param`, `param_parser` — parameter definitions: one-line parameters, arrays
  with named elements, number and string enumerations, extra descriptions.
- `return_type`, `syntax`, `command`, `commands` — the documented commands.
- `command_parser`, `page` — reading a command's page: removing comments and
  markup, splitting it into `key = value` blocks, and reading those blocks
  into the command and its syntaxes.
- `report`, `run_report`, `site`, `order` — the report of a parse run and what
  the website lists, ordered by name.
- `wiki_edit`, `issue_plan` — editing pages and deciding on tracker issues.

Calls into other crates (`regex`, `urlencoding`, `indexmap`) and the few std
functions without a specification stand behind small trusted items whose
contracts say what their documentation promises.

`app/` holds the programs (website generation, interactive search and
replace, version recording, tracker access) that do the I/O around the
library; `tests/` holds the tests.
