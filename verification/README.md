# cxn0102

Control of a CXN0102 laser projector module over I2C.

- `src/` is the verified library: the command frames and the notify frames of the
  module (`commands`, `options`, `results`), the command-line syntax that names a
  frame (`cli`, `args`, `numbers`, `text`), the JSON that reports a notify
  (`backend`, `json`), the JSON request bodies of the HTTP interface
  (`request_json`), the HTTP decisions and responses (`http`) and the decoding of
  what is read from the module (`cxn0102`).
- `app/` is the program around it: the stdin command loop, the notification loop on the
  GPIO line, the I2C bus access and the HTTP server.
- `tests/` holds the tests of the library.
