# tome

The core of Tome, a terminal HTTP client, as a library whose behaviour is
stated in contracts and proved with Verus.

- `src/` — the verified library:
  - `text` — characters, UTF-8 byte lengths, lines, trimming and replacing;
  - `textarea` — the request body editor: cursor moves, typing, backspace,
    delete, line wrapping and key handling;
  - `selector` — the scrolling lists of the selector windows;
  - `projects` — saved projects, endpoints, headers and variables;
  - `postman` — import and export of Postman collections;
  - `requests` — content types, the request to send, response labels;
  - `syntax` — theme and extension names, and highlighting through syntect;
  - `options`, `dashboard`, `windows`, `messages`, `widgets`, `templates` — the
    options, the dashboard's decisions and the messages between windows.
- `tests/` — tests of the library on concrete values.
- `app/` — the program around it: files, HTTP and the clipboard.
