# ws2812_indicator

Verified status-LED logic for a split keyboard with two WS2812 pixels per
half: which colour each pixel shows, when notices and breathing time out,
the low-battery alert cycle, the battery gauge, the WS2812 bit encoding and
the power-rail plan for each frame. Breathing follows a gamma curve and fades
in and out: each pixel's breath starts at dark and, when its effect ends,
breathes down to dark before it stops. Once everything has settled dark the
indicator asks to be polled on a slow idle tick (1 s instead of 100 ms).

- `src/` is the library, with its proofs: `breath` (the breath curve),
  `color` (pixel colours and effects), `frame` (PWM encoding and its decoding
  law), `indicator` (the state machine and its model `IndicatorView`), `laws`
  (properties over runs of updates).
- `app/` is the nRF52840 driver around it: PWM, rail switch, ADC, USB power
  register and the waits between them.
- `tests/` runs the library on concrete scenarios.
