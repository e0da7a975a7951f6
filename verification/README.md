# gulf

Utilities for a Linux screen-capture stack, with their logic proved correct by Verus.

## Layout

- `src/` is the verified library.
  - `bits`, `num`: powers of two (`PowerOfTwo`) and the bit-level facts behind them.
  - `mem`: alignments (`Align`), address masks (`Mask`) and their ordering.
  - `sys`: syscall words (`SysWord`), syscall error numbers (`Errno`) and the details of
    an error message, shown with `str`'s precision, width, alignment and escaping.
  - `platform`: C-library error numbers and their lossily decoded messages, and DMA-BUF
    synchronization rights and options.
  - `capture`: the decisions of a pipe-signalled channel (what to do after each `poll`
    and `write`), the system page size, and the choices behind a screencast selection.
  - `text`: lossy UTF-8 decoding and debug escaping of text from outside the program.
  - `ptr`, `ty`, `hint`, `video`: `CStr` pointer metadata, type equality witnesses,
    branch hints and pixel formats.
- `app/` is ordinary Rust around the library: raw syscalls in inline assembly, pointer
  layouts, atomic file descriptors, `strerror_r` and the DMA-BUF ioctls, the channel's
  `poll`/`write` loops, and the desktop portal's screencast session.
- `tests/` runs the library on concrete values.
