# clipboard-master

Tracks updates of the clipboard on Wayland, through `ext_data_control_v1` where the compositor has
it and `zwlr_data_control_v1` where it does not.

- `src/` is the verified library. It makes no system call. A `WlClipboardListener` is told what the
  compositor sends (`listener`), what the steps of its initialization came to (`startup`) and what
  the steps of waiting for a message came to (`messages`), and answers with what to do next. The
  callbacks are in `handler`, the way to stop in `shutdown`, the errors in `error`, the globals and
  their versions in `globals`. `history` and `runs` prove what holds whatever happens, and in
  whatever order.
- `tests/` runs the library on concrete values.
- `app/` connects the library to a compositor.
