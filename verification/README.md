# pi_radio

An internet radio for a Raspberry Pi with four push buttons (next, previous,
sleep timer, news) and a 16x2 I2C character display.

- `src/` is the verified library: playlist parsing (`playlist`), the
  remembered station file (`persist`), the news window (`news`), station
  navigation (`station`), the sleep timer (`timer`), the shared state and
  its transitions (`radio`), the display lines (`display`) and the display's
  I2C byte protocol (`lcd`), with the text helpers they share (`text`).
- `app/` is the program around it: files, GPIO, I2C, the `cvlc` player,
  signals and the tokio tasks that poll the buttons and tick the monitor.
- `tests/` runs the library on concrete inputs.
