# moneybook

The logic of a keyboard-driven money book, written and proved in Verus: two
ledgers, savings goals and their history, a spending plan and the paydays that
follow from it, fund holdings, recurring rows and the accounts under them all.

The application is a state machine. `App::on_key` takes a key and answers with
a `Request`: something only the store, the network or the clock can do. Whoever
holds the application does it and gives the outcome back through one of the
reply functions of `App`. Every type has a view, a plain mathematical value,
and every function says in its contract what becomes of that view.

## Layout

- `src/` is the library.
  - `key`, `text`, `money`, `date`, `amount`, `step`, `fault`: keys, text under
    a caret, amounts and dates, and what is wrong with one that does not read.
  - `cursor`, `search`, `dial`, `autocomplete`: lists, what keeps their cursor
    in view, what narrows them, and the suggestions under a form.
  - `field`, `label`, `form`, `form_keys`, `value_form`: forms.
  - `ledger`, `savings`, `planning`, `funds`, `recurring`, `accounts`: the
    screens.
  - `destination`, `worksheet`, `picker`, `payday`, `posting`, `history`,
    `confirm`, `help`, `modal`: what opens above them.
  - `said`, `written`: what the application says, and what a write reports.
  - `app_view`, `app`: the whole application, as a value and as code.
  - `laws`: what holds of the application as a whole. Laws of one type stand
    beside the type.
- `tests/` runs the library, most of it from the keyboard against a store kept
  in memory.
- `app/` is the terminal around it: key presses in, drawings out, and the
  trait a store implements.

Dates are moved and read by `chrono`; each call of it stands behind a small
function in `date` whose contract says what is relied on.

What the application says keeps the owner's names and figures apart from its
own words (`said`), so a drawing that hides them can replace each one and leave
the words, the dates and the counts: see `Panels` in `app/draw.rs`.
