# clipawl

A clipboard library with a portable API for Linux (Wayland and X11), the web
and Android.

- `src/` is the verified library. It decides which backend a handle opens
  (`clipboard`), what each read, write or listing asks of that backend
  (`request`), how backend replies become results (`outcome`, `mime_list`),
  how clipboard bytes become text (`text`), and the error type (`error`).
  Every public function carries a contract, and the laws of the library are
  stated and proved next to the functions they speak of.
- `app/` performs the host work: it reads the environment, connects to
  Wayland or X11, calls the browser or Android through JNI, and offers the
  async and blocking clipboard API on top of the library.
- `tests/` runs the library on concrete values.
