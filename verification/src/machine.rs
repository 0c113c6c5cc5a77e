use vstd::prelude::*;
use crate::chip_8::InstructionDecode;
use crate::draw_job::{DrawJobView, SpriteView};

verus! {

/// Number of bytes of machine memory.
pub const MEMORY_LENGTH: usize = 4096;

/// Address at which a program image is placed and execution starts.
pub const ENTRY: usize = 0x200;

/// Number of general-purpose registers; the last one doubles as the flag.
pub const REGISTER_COUNT: usize = 16;

/// Index of the register that carry, borrow, shift and collision results go to.
pub const FLAG: usize = 0xF;

/// Number of keys on the keypad.
pub const KEY_COUNT: usize = 16;

/// Where the "await key" instruction stands between its first execution and
/// its completion.
#[derive(Debug, Clone, Copy, PartialEq, Eq, Structural)]
pub enum KeyWait {
    /// No instruction is waiting for a key.
    Idle,
    /// Suspended; no key has gone down yet.
    Waiting,
    /// Suspended; this key went down and has not come up again.
    Pressed(u8),
    /// This key went down and came up: the next cycle completes the instruction.
    Released(u8),
}

/// Why the machine cannot execute its next instruction.
#[derive(Debug, Clone, Copy, PartialEq, Eq, Structural)]
pub enum Fault {
    /// The two bytes of the instruction do not both lie inside memory.
    FetchOutOfBounds,
    /// The instruction is a return and the call stack is empty.
    ReturnWithEmptyStack,
    /// The instruction reads or writes memory at the index register, and the
    /// bytes it names do not all lie inside memory.
    OperandOutOfBounds,
}

/// The whole state of the machine as a mathematical value.
pub struct MachineState {
    pub memory: Seq<u8>,
    pub registers: Seq<u8>,
    pub pc: u16,
    pub index: u16,
    pub stack: Seq<u16>,
    pub delay: u8,
    pub sound: u8,
    pub keys: Seq<bool>,
    pub latch: KeyWait,
    pub queue: Seq<DrawJobView>,
}

/// The built-in glyphs for the digits 0 to F, five bytes each.
pub open spec fn font() -> Seq<u8> {
    seq![
        0xF0u8, 0x90, 0x90, 0x90, 0xF0,
        0x20, 0x60, 0x20, 0x20, 0x70,
        0xF0, 0x10, 0xF0, 0x80, 0xF0,
        0xF0, 0x10, 0xF0, 0x10, 0xF0,
        0x90, 0x90, 0xF0, 0x10, 0x10,
        0xF0, 0x80, 0xF0, 0x10, 0xF0,
        0xF0, 0x80, 0xF0, 0x90, 0xF0,
        0xF0, 0x10, 0x20, 0x40, 0x40,
        0xF0, 0x90, 0xF0, 0x90, 0xF0,
        0xF0, 0x90, 0xF0, 0x10, 0xF0,
        0xF0, 0x90, 0xF0, 0x90, 0x90,
        0xE0, 0x90, 0xE0, 0x90, 0xE0,
        0xF0, 0x80, 0x80, 0x80, 0xF0,
        0xE0, 0x90, 0x90, 0x90, 0xE0,
        0xF0, 0x80, 0xF0, 0x80, 0xF0,
        0xF0, 0x80, 0xF0, 0x80, 0x80,
    ]
}

/// Whether `word` is an "await key" instruction, whatever its register.
pub open spec fn is_await_key(word: u16) -> bool {
    word / 4096 == 0xF && word % 256 == 0x0A
}

impl MachineState {
    /// The state right after loading `image`: the font at address 0, the
    /// image from `ENTRY` on as far as memory reaches, zero elsewhere (also at
    /// the byte just below `ENTRY`), execution about to start at `ENTRY`.
    pub open spec fn boot(image: Seq<u8>) -> MachineState {
        MachineState {
            memory: Seq::new(
                MEMORY_LENGTH as nat,
                |a: int|
                    if a < 80 {
                        font()[a]
                    } else if ENTRY <= a < ENTRY + image.len() {
                        image[a - ENTRY]
                    } else {
                        0u8
                    },
            ),
            registers: Seq::new(REGISTER_COUNT as nat, |r: int| 0u8),
            pc: ENTRY as u16,
            index: 0,
            stack: Seq::empty(),
            delay: 0,
            sound: 0,
            keys: Seq::new(KEY_COUNT as nat, |k: int| false),
            latch: KeyWait::Idle,
            queue: Seq::empty(),
        }
    }

    /// The instruction word whose first byte is at `addr`, big-endian.
    pub open spec fn word_at(self, addr: int) -> u16 {
        (self.memory[addr] * 256 + self.memory[addr + 1]) as u16
    }

    /// What every reachable state satisfies: the fixed sizes, a latch key on
    /// the keypad, and, while a key is awaited, the program counter resting
    /// on the instruction that waits.
    pub open spec fn wf(self) -> bool {
        &&& self.memory.len() == MEMORY_LENGTH
        &&& self.registers.len() == REGISTER_COUNT
        &&& self.keys.len() == KEY_COUNT
        &&& match self.latch {
            KeyWait::Idle => true,
            KeyWait::Waiting => self.at_await_key(),
            KeyWait::Pressed(k) => k < KEY_COUNT && self.at_await_key(),
            KeyWait::Released(k) => k < KEY_COUNT && self.at_await_key(),
        }
    }

    /// Whether the program counter rests on an "await key" instruction.
    pub open spec fn at_await_key(self) -> bool {
        self.pc + 1 < MEMORY_LENGTH && is_await_key(self.word_at(self.pc as int))
    }

    /// Whether a cycle would leave the machine as it is: a key is awaited and
    /// has not been pressed and released yet.
    pub open spec fn stalled(self) -> bool {
        self.latch is Waiting || self.latch is Pressed
    }

    /// The reason, if any, why the instruction `word` cannot be executed
    /// once it has been fetched.
    pub open spec fn operand_fault(self, word: u16) -> Option<Fault> {
        let d = InstructionDecode::of(word);
        if word == 0x00EE && self.stack.len() == 0 {
            Some(Fault::ReturnWithEmptyStack)
        } else if d.opcode == 0xD && self.index + d.funct > MEMORY_LENGTH {
            Some(Fault::OperandOutOfBounds)
        } else if d.opcode == 0xF && d.immediate == 0x33 && self.index + 3 > MEMORY_LENGTH {
            Some(Fault::OperandOutOfBounds)
        } else if d.opcode == 0xF && (d.immediate == 0x55 || d.immediate == 0x65) && self.index
            + d.x + 1 > MEMORY_LENGTH {
            Some(Fault::OperandOutOfBounds)
        } else {
            None
        }
    }

    /// The reason, if any, why the next instruction cannot be executed.
    pub open spec fn fault(self) -> Option<Fault> {
        if self.pc + 1 >= MEMORY_LENGTH {
            Some(Fault::FetchOutOfBounds)
        } else {
            self.operand_fault(self.word_at(self.pc as int))
        }
    }

    /// Register `x`.
    pub open spec fn v(self, x: int) -> u8 {
        self.registers[x]
    }

    /// This state with `value` in register `x`.
    pub open spec fn set_v(self, x: int, value: u8) -> MachineState {
        MachineState { registers: self.registers.update(x, value), ..self }
    }

    /// This state with `value` in the flag register.
    pub open spec fn set_flag(self, value: u8) -> MachineState {
        self.set_v(FLAG as int, value)
    }

    /// This state with the program counter moved past one more instruction
    /// if `condition` holds.
    pub open spec fn skip_if(self, condition: bool) -> MachineState {
        if condition {
            MachineState { pc: (self.pc + 2) as u16, ..self }
        } else {
            self
        }
    }

    /// Clear display: the command joins the queue.
    pub open spec fn clear_screen(self) -> MachineState {
        MachineState { queue: self.queue.push(DrawJobView::Clear), ..self }
    }

    /// Return: the program counter takes the address on top of the stack.
    pub open spec fn ret(self) -> MachineState {
        MachineState { pc: self.stack.last(), stack: self.stack.drop_last(), ..self }
    }

    /// Jump to `addr`.
    pub open spec fn jump(self, addr: u16) -> MachineState {
        MachineState { pc: addr, ..self }
    }

    /// Call: the address of the next instruction goes onto the stack, and
    /// execution goes on at `addr`.
    pub open spec fn call(self, addr: u16) -> MachineState {
        MachineState { pc: addr, stack: self.stack.push(self.pc), ..self }
    }

    /// `Vx = imm`.
    pub open spec fn load_imm(self, x: int, imm: u8) -> MachineState {
        self.set_v(x, imm)
    }

    /// `Vx = Vx + imm` modulo 256. The flag register is not touched.
    pub open spec fn add_imm(self, x: int, imm: u8) -> MachineState {
        self.set_v(x, ((self.v(x) + imm) % 256) as u8)
    }

    /// `Vx = Vy`.
    pub open spec fn move_reg(self, x: int, y: int) -> MachineState {
        self.set_v(x, self.v(y))
    }

    /// `Vx = Vx | Vy`, and then the flag register is reset.
    pub open spec fn or_reg(self, x: int, y: int) -> MachineState {
        self.set_v(x, self.v(x) | self.v(y)).set_flag(0)
    }

    /// `Vx = Vx & Vy`, and then the flag register is reset.
    pub open spec fn and_reg(self, x: int, y: int) -> MachineState {
        self.set_v(x, self.v(x) & self.v(y)).set_flag(0)
    }

    /// `Vx = Vx ^ Vy`, and then the flag register is reset.
    pub open spec fn xor_reg(self, x: int, y: int) -> MachineState {
        self.set_v(x, self.v(x) ^ self.v(y)).set_flag(0)
    }

    /// `Vx = Vx + Vy` modulo 256, and then the flag register tells whether
    /// the sum was more than a byte holds.
    pub open spec fn add_reg(self, x: int, y: int) -> MachineState {
        let sum = self.v(x) + self.v(y);
        self.set_v(x, (sum % 256) as u8).set_flag(if sum > 255 { 1 } else { 0 })
    }

    /// `Vx = Vx - Vy` modulo 256, and then the flag register tells that
    /// nothing was borrowed: that `Vx >= Vy` held.
    pub open spec fn sub_reg(self, x: int, y: int) -> MachineState {
        let difference = self.v(x) - self.v(y);
        self.set_v(x, (difference % 256) as u8).set_flag(if self.v(x) >= self.v(y) { 1 } else { 0 })
    }

    /// `Vx = Vy - Vx` modulo 256, and then the flag register tells that
    /// nothing was borrowed: that `Vy >= Vx` held.
    pub open spec fn subn_reg(self, x: int, y: int) -> MachineState {
        let difference = self.v(y) - self.v(x);
        self.set_v(x, (difference % 256) as u8).set_flag(if self.v(y) >= self.v(x) { 1 } else { 0 })
    }

    /// `Vx =` half of `Vy`, and then the flag register takes the bit of `Vy`
    /// that fell off.
    pub open spec fn shr_reg(self, x: int, y: int) -> MachineState {
        self.set_v(x, self.v(y) / 2).set_flag(self.v(y) % 2)
    }

    /// `Vx =` twice `Vy` modulo 256, and then the flag register takes the
    /// bit of `Vy` that fell off.
    pub open spec fn shl_reg(self, x: int, y: int) -> MachineState {
        self.set_v(x, ((self.v(y) * 2) % 256) as u8).set_flag(self.v(y) / 128)
    }

    /// `I = addr`.
    pub open spec fn load_addr(self, addr: u16) -> MachineState {
        MachineState { index: addr, ..self }
    }

    /// Jump to `addr + V0`.
    pub open spec fn jump_offset(self, addr: u16) -> MachineState {
        MachineState { pc: (addr + self.v(0)) as u16, ..self }
    }

    /// `Vx = random & imm`.
    pub open spec fn random_and(self, x: int, imm: u8, random: u8) -> MachineState {
        self.set_v(x, random & imm)
    }

    /// Draw: the `n` bytes from `I` on join the queue as a sprite with its
    /// origin at `(Vx mod 64, Vy mod 32)`. The flag register waits for the
    /// renderer's report.
    pub open spec fn draw_sprite(self, x: int, y: int, n: int) -> MachineState {
        let sprite = SpriteView {
            x: (self.v(x) % 64) as int,
            y: (self.v(y) % 32) as int,
            rows: self.memory.subrange(self.index as int, self.index + n),
        };
        MachineState { queue: self.queue.push(DrawJobView::Draw(sprite)), ..self }
    }

    /// Whether the key that register `x` names is down.
    pub open spec fn key_down(self, x: int) -> bool {
        self.keys[(self.v(x) % 16) as int]
    }

    /// `Vx =` the delay timer.
    pub open spec fn load_delay(self, x: int) -> MachineState {
        self.set_v(x, self.delay)
    }

    /// The "await key" instruction, met with the program counter already
    /// past it: it completes if the awaited key has been pressed and released,
    /// and else moves the program counter back onto itself.
    pub open spec fn get_key(self, x: int) -> MachineState {
        match self.latch {
            KeyWait::Idle => MachineState {
                latch: KeyWait::Waiting,
                pc: (self.pc - 2) as u16,
                ..self
            },
            KeyWait::Waiting => MachineState { pc: (self.pc - 2) as u16, ..self },
            KeyWait::Pressed(_) => MachineState { pc: (self.pc - 2) as u16, ..self },
            KeyWait::Released(k) => MachineState { latch: KeyWait::Idle, ..self }.set_v(x, k),
        }
    }

    /// The delay timer `= Vx`.
    pub open spec fn store_delay(self, x: int) -> MachineState {
        MachineState { delay: self.v(x), ..self }
    }

    /// The sound timer `= Vx`.
    pub open spec fn load_sound_timer(self, x: int) -> MachineState {
        MachineState { sound: self.v(x), ..self }
    }

    /// `I = I + Vx` modulo 65536. The flag register is not touched.
    pub open spec fn add_index(self, x: int) -> MachineState {
        MachineState { index: ((self.index + self.v(x)) % 65536) as u16, ..self }
    }

    /// `I =` the address of the glyph for `Vx`: five times `Vx`.
    pub open spec fn load_hex_sprite(self, x: int) -> MachineState {
        MachineState { index: (5 * self.v(x)) as u16, ..self }
    }

    /// The decimal digits of `Vx` go to `I`, `I + 1` and `I + 2`, the
    /// hundreds first.
    pub open spec fn store_bcd(self, x: int) -> MachineState {
        let value = self.v(x);
        let at = self.index as int;
        MachineState {
            memory: self.memory.update(at, value / 100).update(at + 1, (value / 10) % 10).update(
                at + 2,
                value % 10,
            ),
            ..self
        }
    }

    /// `V0..=Vx` go to memory from `I` on, and `I` moves past them.
    pub open spec fn store_block(self, x: int) -> MachineState {
        let at = self.index as int;
        MachineState {
            memory: Seq::new(
                self.memory.len(),
                |a: int|
                    if at <= a <= at + x {
                        self.registers[a - at]
                    } else {
                        self.memory[a]
                    },
            ),
            index: (at + x + 1) as u16,
            ..self
        }
    }

    /// `V0..=Vx` come from memory from `I` on, and `I` moves past them.
    pub open spec fn load_block(self, x: int) -> MachineState {
        let at = self.index as int;
        MachineState {
            registers: Seq::new(
                self.registers.len(),
                |r: int|
                    if r <= x {
                        self.memory[at + r]
                    } else {
                        self.registers[r]
                    },
            ),
            index: (at + x + 1) as u16,
            ..self
        }
    }

    /// Whether some instruction answers to `word`. Any other word passes as
    /// an instruction without effect.
    pub open spec fn recognizes(word: u16) -> bool {
        let d = InstructionDecode::of(word);
        if d.opcode == 0x0 {
            d.address == 0x0E0 || d.address == 0x0EE
        } else if d.opcode == 0x8 {
            d.funct <= 0x7 || d.funct == 0xE
        } else if d.opcode == 0xE {
            d.immediate == 0x9E || d.immediate == 0xA1
        } else if d.opcode == 0xF {
            d.immediate == 0x07 || d.immediate == 0x0A || d.immediate == 0x15
                || d.immediate == 0x18 || d.immediate == 0x1E || d.immediate == 0x29
                || d.immediate == 0x33 || d.immediate == 0x55 || d.immediate == 0x65
        } else {
            true
        }
    }

    /// The word at the program counter if it is no instruction.
    pub open spec fn unknown_word(self) -> Option<u16> {
        let word = self.word_at(self.pc as int);
        if Self::recognizes(word) {
            None
        } else {
            Some(word)
        }
    }

    /// The effect of the instruction `word` on this state, in which the
    /// program counter already points past it. `random` is the byte that the
    /// random instruction draws; no other instruction looks at it.
    #[verifier::opaque]
    pub open spec fn execute(self, word: u16, random: u8) -> MachineState {
        let d = InstructionDecode::of(word);
        let x = d.x as int;
        let y = d.y as int;
        if d.opcode == 0x0 {
            if d.address == 0x0E0 {
                self.clear_screen()
            } else if d.address == 0x0EE {
                self.ret()
            } else {
                self
            }
        } else if d.opcode == 0x1 {
            self.jump(d.address)
        } else if d.opcode == 0x2 {
            self.call(d.address)
        } else if d.opcode == 0x3 {
            self.skip_if(self.v(x) == d.immediate)
        } else if d.opcode == 0x4 {
            self.skip_if(self.v(x) != d.immediate)
        } else if d.opcode == 0x5 {
            self.skip_if(self.v(x) == self.v(y))
        } else if d.opcode == 0x6 {
            self.load_imm(x, d.immediate)
        } else if d.opcode == 0x7 {
            self.add_imm(x, d.immediate)
        } else if d.opcode == 0x8 {
            if d.funct == 0x0 {
                self.move_reg(x, y)
            } else if d.funct == 0x1 {
                self.or_reg(x, y)
            } else if d.funct == 0x2 {
                self.and_reg(x, y)
            } else if d.funct == 0x3 {
                self.xor_reg(x, y)
            } else if d.funct == 0x4 {
                self.add_reg(x, y)
            } else if d.funct == 0x5 {
                self.sub_reg(x, y)
            } else if d.funct == 0x6 {
                self.shr_reg(x, y)
            } else if d.funct == 0x7 {
                self.subn_reg(x, y)
            } else if d.funct == 0xE {
                self.shl_reg(x, y)
            } else {
                self
            }
        } else if d.opcode == 0x9 {
            self.skip_if(self.v(x) != self.v(y))
        } else if d.opcode == 0xA {
            self.load_addr(d.address)
        } else if d.opcode == 0xB {
            self.jump_offset(d.address)
        } else if d.opcode == 0xC {
            self.random_and(x, d.immediate, random)
        } else if d.opcode == 0xD {
            self.draw_sprite(x, y, d.funct as int)
        } else if d.opcode == 0xE {
            if d.immediate == 0x9E {
                self.skip_if(self.key_down(x))
            } else if d.immediate == 0xA1 {
                self.skip_if(!self.key_down(x))
            } else {
                self
            }
        } else {
            if d.immediate == 0x07 {
                self.load_delay(x)
            } else if d.immediate == 0x0A {
                self.get_key(x)
            } else if d.immediate == 0x15 {
                self.store_delay(x)
            } else if d.immediate == 0x18 {
                self.load_sound_timer(x)
            } else if d.immediate == 0x1E {
                self.add_index(x)
            } else if d.immediate == 0x29 {
                self.load_hex_sprite(x)
            } else if d.immediate == 0x33 {
                self.store_bcd(x)
            } else if d.immediate == 0x55 {
                self.store_block(x)
            } else if d.immediate == 0x65 {
                self.load_block(x)
            } else {
                self
            }
        }
    }

    /// This state with the program counter moved past the instruction it
    /// points at.
    pub open spec fn fetched(self) -> MachineState {
        MachineState { pc: (self.pc + 2) as u16, ..self }
    }

    /// One instruction cycle: the word at the program counter is read, the
    /// program counter moves past it, and the instruction takes effect.
    pub open spec fn step(self, random: u8) -> MachineState {
        self.fetched().execute(self.word_at(self.pc as int), random)
    }

    /// One timer tick: each timer goes down by one and stays at zero.
    pub open spec fn tick_timers(self) -> MachineState {
        MachineState {
            delay: if self.delay == 0 { 0u8 } else { (self.delay - 1) as u8 },
            sound: if self.sound == 0 { 0u8 } else { (self.sound - 1) as u8 },
            ..self
        }
    }

    /// The latch after key `key` went down (`pressed`) or came up: the first
    /// key down while waiting becomes the candidate, and its release, no
    /// other, completes the wait.
    pub open spec fn latch_after(self, key: u8, pressed: bool) -> KeyWait {
        match self.latch {
            KeyWait::Waiting => if pressed { KeyWait::Pressed(key) } else { KeyWait::Waiting },
            KeyWait::Pressed(k) => if !pressed && k == key {
                KeyWait::Released(k)
            } else {
                KeyWait::Pressed(k)
            },
            other => other,
        }
    }

    /// The state after the host reports that key `key` went down or came up.
    pub open spec fn key_event(self, key: u8, pressed: bool) -> MachineState {
        MachineState {
            keys: self.keys.update(key as int, pressed),
            latch: self.latch_after(key, pressed),
            ..self
        }
    }

    /// The state after the renderer took the oldest display command, if
    /// there was one.
    pub open spec fn without_first_job(self) -> MachineState {
        if self.queue.len() == 0 {
            self
        } else {
            MachineState { queue: self.queue.subrange(1, self.queue.len() as int), ..self }
        }
    }

    /// The state after the renderer reported whether a sprite hit a lit pixel.
    pub open spec fn with_collision(self, collides: bool) -> MachineState {
        self.set_flag(if collides { 1 } else { 0 })
    }
}

impl MachineState {
    /// A cycle keeps a well-formed state well-formed.
    pub proof fn step_preserves_wf(self, random: u8)
        requires
            self.wf(),
            self.fault() is None,
        ensures
            self.step(random).wf(),
    {
        reveal(MachineState::execute);
    }
}

} // verus!
