# seaport

Seaport serves the files of a game server directory to clients: it scans the
directory into a file list (paths, kinds, sizes, MD5 hashes), answers download
and sync requests for files below that directory, and offers a small control
window that starts and stops serving.

- `src/` is the library, verified with Verus: the file list and how each
  walked entry becomes a line of it, the scan worker's decisions, the answers
  to download and sync requests, the control window's state changes and texts,
  and the configuration's derived texts.
- `app/` is the program around it: configuration loading, logging, the HTTP
  server (axum), the directory watcher (notify) and walker (walkdir), and the
  window (iced).
- `tests/` exercises the library on concrete values.
