# gb

The core of a Game Boy (DMG) emulator, written in Verus: each component states its behaviour
in `requires`/`ensures` contracts, and Verus proves the code against them.

Modules of the library (`src/`):

- `bitfield`, `bool_bitfield`: register bytes read and written by bit fields.
- `cpu`: the registers and the arithmetic and logic unit.
- `opcode`: the instruction set and its encoding; decoding is injective.
- `machine`: the CPU. `effect` states what each instruction does to the registers and which
  addresses it reads and writes; `Cpu::execute` and `Cpu::next_instruction` are proved against
  it. The memory bus is the trait `HandlerHolder`.
- `interrupt`, `timer`: interrupt requests and the programmable timer.
- `bus`, `handler_holder`, `dma`, `cartridge`: the memory map, work RAM, joypad, serial port,
  OAM DMA and the cartridge's memory bank controllers (MBC1/MBC3, with a real time clock).
- `ppu`, `video`: the LCD controller (pixel FIFO, sprites) and the conversion of frames to RGBA.
- `apu`, `noise`: the sound unit's registers, channels and frame sequencer, and the noise
  patterns.
- `emulator`: a Game Boy set up from a ROM image as the boot ROM leaves it, the copy of its
  cartridge RAM to a save buffer, and the whole-number sound parameters of its channels.
- `debugger`, `controller`, `save_file`: the front end's command interpreter, input mapping and
  save-file naming.

`app/` is the command-line front end (file I/O, argument parsing, screenshots, and the
floating-point mixing of the sound channels).
