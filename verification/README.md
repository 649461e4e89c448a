# synth_core

Verified control logic of a small polyphonic synthesizer built on an
STM32U5 board: thirteen keys, four potentiometers, two rotary encoders, two
page buttons, an SPI display and an I2S-style audio codec.

## Layout

- `src/` — the verified library:
  - `synth/adsr.rs` — the voice envelope (attack, decay, sustain, release)
    and its stage machine; `adsr.rs` — the fixed-time envelope variant.
  - `synth/effects.rs` — presets, their six effects and the "soft takeover"
    of potentiometer readings; the synthesizer state the panel edits.
  - `synth/sequencer.rs` — the step sequencer's state.
  - `input.rs` — potentiometer mappings, encoder decoding, key bits, and the
    application of one round of panel input to the state.
  - `audio.rs` — voice allocation from the key mask, the per-buffer
    parameters read from the active preset, and the per-sample decisions.
  - `video.rs` — planning which parts of the screen to redraw.
  - `drums.rs` — the drum hit envelope; `task_manager.rs` — the test tone
    generator's mode choice.
- `app/` — the firmware around it: embassy tasks, ADC, encoders, display
  drawing, and the floating-point signal path (oscillators, filter, mixing).
- `tests/` — tests of the library on concrete values.

## Numbers

The library holds no floating-point values. Effect parameters are integers
in thousandths of a unit (1000 stands for 1.0); envelope levels are fractions
of `LEVEL_ONE` and drum levels of `DRUM_ONE` (both 2^40), filter cutoffs of
`CUTOFF_ONE`; note frequencies are
in hundredths of a hertz. The firmware converts to `f32` where the signal
path needs it.
