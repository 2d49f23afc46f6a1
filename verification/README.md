# Perceptor

A computer-vision pipeline in which frames are entities of an ECS world and
image transformations are systems run stage by stage
(input → pre-process → process → post-process → output).

## Layout

- `src/` — the verified library:
  - `pixels.rs` — `PixelBuffer`, a row-major `[H, W, C]` byte tensor whose
    byte count always matches its shape;
  - `binary32.rs` — exact integer model of binary32 rounding, used to state
    and compute the luminance formula bit for bit;
  - `engine/` — `Frame`, `FrameMeta`, the stage order, the pipeline state;
  - `plugins/filters/` — grayscale (BT.601) and Sobel, with their contracts
    and laws, and the filters plugin's registrations;
  - `plugins/io/` — the reader's and writer's per-tick decisions;
  - `plugins/ml/` — model configuration and the inference decision.
- `tests/` — tests of the library, including exhaustive comparisons of the
  luminance and square-root computations with the floating-point formulas.
- `app/` — the `bevy_ecs` side: world, schedules, systems, plugins, file I/O
  and the floating-point prediction component.
