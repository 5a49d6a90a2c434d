# rusty_boy

A Game Boy emulator core, with experimental Game Boy Advance support, whose
behaviour is stated in contracts and checked by Verus.

- `src/cpu`: the Game Boy CPU (instruction decoding and execution, ALU,
  interrupts, timers), its memory map, cartridges and their memory bank
  controllers, the sound unit and the event log of the memory visualiser.
- `src/gba`: the ARM7TDMI registers and barrel shifter, the I/O registers,
  the memory bus with its wait states, the ARM and Thumb instruction sets,
  interrupts, DMA and the step that runs them.
- `src/debugger`: the debugger's command language (lexer, parser and
  evaluation), a second, simpler command language, and the debugger
  session (line editing, history, watchpoints, breakpoints and replies).
- `src/disasm.rs`: the disassembler.
- `src/assembler`: helpers of the assembler.
- `app/`: the disassembler program, and the parts that touch files or
  compute with floating point.
