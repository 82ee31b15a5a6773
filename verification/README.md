# Chirp

A Chip-8 interpreter, modelled as if it were a real CPU architecture, with its behaviour
stated in contracts and proved by Verus.

## Layout

- `src/cpu.rs` and `src/cpu/`: the processor. `state.rs` holds the mathematical model of a
  CPU (`CpuState`) and the meaning of every instruction; `behavior.rs` and `execution.rs`
  implement them against that model; `instruction.rs` decodes and encodes instructions;
  `disassemble.rs` and `instruction/disassembler.rs` render them as text; `mem.rs` and
  `bus.rs` are the memories; `laws.rs` proves what holds across operations (drawing a sprite
  twice restores the screen, a call and a return cancel, a tick counts a cycle, the screen
  keeps its size, ...); `hotkeys.rs` is what the keys of the host keyboard do, and `emu.rs`
  an emulator session.
- `src/screen.rs`: the screen bytes, and their rendering as text or pixel colours.
- `src/tree.rs`: the control-flow tree of a program, following jumps, calls and skips.
- `src/keypad.rs`: the QWERTY layout of the hexadecimal keypad.
- `src/error.rs`, `src/text.rs`, `src/dump.rs`, `src/traits/`: errors, text building blocks,
  memory dumps, and byte access traits.
- `src/bus.rs`, `src/mem.rs`: the memory bus and memory chips of the earlier bus design.
- `app/main.rs`: the minifb frontend: the window, the command line, files, and timing.

## Keybinds

| Key          | Action                                  |
|--------------|-----------------------------------------|
| F1 or `,`    | Dump CPU registers                      |
| F2 or `.`    | Dump screen to terminal                 |
| F3           | Dump screen to file                     |
| F4 or `/`    | Enable/Disable live disassembly         |
| F5 or `\`    | Pause/Resume                            |
| F6 or Enter  | Single-step instruction                 |
| F7           | Set breakpoint at current instruction   |
| F8           | Unset breakpoint at current instruction |
| F9 or Delete | Soft-reset the CPU                      |
| F10 or Backspace | Hard-reset the CPU, keeping the program |
| Escape       | Quit                                    |

The keypad sits on `1234`, `QWER`, `ASDF` and `ZXCV`.
