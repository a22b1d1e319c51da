# openrsynth

A small synthesizer: a desktop program played from the computer keyboard or a
MIDI keyboard, and the control logic of an embedded board with buttons, a
rotary encoder, a display, a USB MIDI port and a WM8994 codec.

## Layout

- `src/` is the verified library. Every function in it carries a contract
  that Verus proves:
  - `music`: pitches, notes and their MIDI numbers, note events;
  - `midi`: raw MIDI and USB-MIDI packet decoding;
  - `synth`: the envelope's stage timing in samples, and the voice pool with
    its polyphony limit and voice stealing;
  - `engine`: what each note event asks of the synthesizer, and the
    instrument selection;
  - `desktop`: the computer-keyboard layout, the preset choices and the
    checks of a preset's name and oscillator count;
  - `stm32`: the board's button debouncing and encoder decoding, the command
    ring buffer, the display window, the codec's register protocol and
    configuration sequence, and the answers to control-panel events.
- `app/` is the desktop program around the library: the window, audio and
  MIDI devices, preset files, and the signal processing, which works on
  floating-point samples.
- `tests/` exercises the library on concrete values.
