# ghwatch

A terminal dashboard for following GitHub pull requests through the `gh` CLI:
polled search queries, a grouped and sorted list, a detail pane, an attention
model that tells which pull requests need the user, desktop notifications and
an archive.

## Layout

- `src/` is the library, verified with Verus. It holds the application's
  state and every decision of its event loop (`app`, `app/events`, `app/keys`,
  `app/merge`), the attention model (`domain/attention`) and the properties
  proved of it (`domain/attention_laws`, `app/laws`), the list, its sorting and
  grouping (`domain/pr_list`, `domain/sort_order`), the conversion of the
  records decoded from GitHub's replies into the library's types and what a
  search reply yields (`github`),
  the polling schedule with its rate-limit backoff and retries
  (`polling/worker`), notification deduplication
  (`notify`), and the pieces of text the screens are built from (`ui`),
  the description's Markdown rendered into styled lines among them.
  The event loop is a function from the state and an event to the next state
  and a list of effects (save, fetch, notify, open, copy).
- `app/` is the program around it: terminal setup, drawing with ratatui
  (the layout of each screen and its fixed labels), input from crossterm,
  the `gh` calls and the reading of their JSON replies, the polling task and
  its lease, files on disk and the serde copies of the stored types. It carries out the effects the
  library asks for and feeds the results back as events.
- `tests/` runs the library on concrete values.
