# disp_writer

Host-side writer for an SSD1306 OLED panel (128x64, I2C). A container writes
a fixed-length 88-byte `DisplayFrame` to tmpfs; this program polls the file,
and draws the frame whenever its sequence number changes.

Layout:

- `src/` — the verified library (Verus):
  - `frame.rs`: the binary frame format, its decoding, and the text shown for a frame;
  - `text.rs`: UTF-8 field decoding and trimming, string equality;
  - `config.rs`: configuration sections and their defaults;
  - `display.rs`: interface and rotation choices, I2C address byte, text rows;
  - `cli.rs`: the command line;
  - `poll.rs`: decisions of the polling loop.
- `app/` — the program around it: argument and file I/O, TOML loading,
  the panel itself (rppal, ssd1306, embedded-graphics), float formatting,
  and the polling loop.
- `tests/` — tests of the library on concrete values.
