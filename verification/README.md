# penta_top_hat

The verified core of a daemon for a HAT board with a button, a fan and a display.

- `src/` is the library, written in Verus:
  - `button` turns edges and polled levels of a button into gestures;
  - `action` says what a gesture does;
  - `button_loop` decides what the thread that watches the button does next;
  - `env_file` and `env_map` read board pin maps from `KEY=value` files;
  - `cli` reads the command line;
  - `gpio_cdev` builds requests to the Linux GPIO character device and reads its answers;
  - `text` and `number` are the helpers for characters and decimal numbers;
  - `laws` states what holds across functions.
- `app/` is the ordinary Rust around it: files, devices, threads and system commands.
- `tests/` runs the library.

Points in time and spans of time are nanoseconds, counted in 128 bits. Two facts about the
standard library are taken on trust: what `String::push` appends, and that `Debug` shows the
same text always in the same way.
