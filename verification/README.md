# nanashi

A terminal client for browsing 4chan, split in two:

- `src/` is the library, verified with Verus: the application state machine
  (`app`), the vim-style input engine with counts and chords (`input`), key
  binding parsing and printing (`keybinds`), the HTML-to-text rendering of
  posts (`format`), list selection (`component`), the three columns (`panes`),
  the data model and page cursor (`model`), the API and page addresses (`api`),
  the client's pacing and user agent (`client`), the configuration paths
  (`config`) and string helpers (`text`). Each public function states what it
  returns in its contract, and the properties that span several calls (the
  state invariant, fetch accounting, round trips of paging, search and key
  printing) are proof functions.
- `app/` is the program around it: terminal setup and drawing with ratatui,
  key events from crossterm, HTTP with reqwest and tokio, JSON with serde,
  the browser and the clipboard.

`tests/` runs the library on concrete inputs.
