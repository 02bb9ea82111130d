# gameboy_emulator

A Game Boy (DMG) emulator core whose behaviour is specified and proved with Verus, and the
logic of a message queue's administration interface.

## Layout

- `src/` — the verified library.
  - `bits`, `register`, `reg`, `addrreg`, `condition`, `dataloc`: bytes and words, the CPU's
    register file and the operand types.
  - `instruction`, `decode`: the instruction set, its timings and the opcode table.
  - `alu`, `cpu_spec`, `cpu`: flag arithmetic, the specification of one CPU step (fetch,
    decode, execute, timer, interrupt dispatch) and its implementation.
  - `memory`, `cartridge_header`, `audio_registers`, `div_timer`: the address space with its
    bank controllers, the cartridge header, the sound registers and the DIV divider.
  - `ppu`: the picture processing unit, dot by dot, with OAM DMA and the frame buffer.
  - `apu`: the pulse channels of the sound unit and channel 1's frequency sweep.
  - `joypad`: the P1 register.
  - `gameboy`: the console and one step of its main loop.
  - `admin`: the widget state of the message queue's administration interface and the
    requests it decides to send: collapsible sections, the connection widget, the queue
    overview, the inspection view of a queue and what it shows, the queue and topic selectors,
    the topic breakdown, the administration view that routes messages between them, and the
    table that turns each server answer into the message its view gets.
- `tests/` — tests of the library on concrete values.
- `app/` — the emulator program: file loading, the window (minifb), the keyboard, and the
  sound output (cpal).
