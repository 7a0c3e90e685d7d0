# mem6

The logic of a memory card game played in the browser, verified with Verus.

- `src/` is the library: the game data (`gamedatamod`), the root of the page
  (`rootrenderingcomponentmod`), the texts, listeners and nodes that html
  templates ask for (`fncallermod`), the `#` fragment router (`routermod`),
  what is kept in the browser storage (`storagemod`, `divnicknamemod`), the
  fetched addresses and content (`fetchmod`), and the steps of the game
  (`status1stcardmod`, `statusjoinedmod`). `text` holds the string helpers:
  decimal numbers, parsing, comparison, UTF-8 lengths.
- `tests/` runs the library on concrete values.
- `app/` is the browser side: storage, location, fetch and dodrio nodes,
  calling the library for every decision.
