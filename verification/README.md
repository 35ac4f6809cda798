# panel_kit

Small programs around hardware boards: web pages that set an LED or an RGB
LED over a serial line, a double traffic light shown on a web page with an
emergency stop, and a voice notepad that records from the microphone, saves
a WAV file and has it transcribed.

- `src/` is the verified library (Verus): message encoding, change detection,
  parsing of the board's replies, the traffic light's state line, the audio
  buffer and the notepad's screen logic, each with its contract and laws.
- `app/` runs the programs: web servers, serial ports, audio devices, the
  window, WAV files and the transcriber process. The first argument picks the
  program (`led-slider`, `rgb-slider`, `rgb-slider-reply`, `traffic-lights`,
  `voicepad`, `voicepad-gui`, `capture-timed`, `capture-enter`,
  `capture-stream`, `device-info`).
- `tests/` runs the library on concrete values.
