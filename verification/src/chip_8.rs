use std::collections::VecDeque;
use vstd::prelude::*;
use crate::chip_8_variant::Chip8Variant;
use crate::draw_job::{DrawJob, DrawJobView, Sprite};
use crate::keypad::{keypad_index, keypad_key, ElementState, KeyCode};
use crate::laws::cycle_only_appends_to_queue;
use crate::machine::{font, Fault, KeyWait, MachineState, ENTRY, FLAG, MEMORY_LENGTH};
use crate::random::random_byte;

verus! {

/// The fields of one 16-bit instruction word.
#[derive(Debug, Clone, Copy)]
pub struct InstructionDecode {
    /// Bits 15 to 12: the instruction class.
    pub opcode: u8,
    /// Bits 11 to 8: the first register operand.
    pub x: usize,
    /// Bits 7 to 4: the second register operand.
    pub y: usize,
    /// Bits 3 to 0: a secondary selector, or the height of a sprite.
    pub funct: usize,
    /// Bits 7 to 0.
    pub immediate: u8,
    /// Bits 11 to 0.
    pub address: u16,
}

impl InstructionDecode {
    /// The fields of `instruction`, as positions in its base-16 notation.
    pub open spec fn of(instruction: u16) -> InstructionDecode {
        InstructionDecode {
            opcode: (instruction / 4096) as u8,
            x: ((instruction / 256) % 16) as usize,
            y: ((instruction / 16) % 16) as usize,
            funct: (instruction % 16) as usize,
            immediate: (instruction % 256) as u8,
            address: (instruction % 4096) as u16,
        }
    }

    /// Splits an instruction word into its fields. Every word decodes.
    pub fn decode(instruction: u16) -> (fields: Self)
        ensures
            fields == Self::of(instruction),
            fields.opcode < 16,
            fields.x < 16,
            fields.y < 16,
            fields.funct < 16,
            fields.address < 4096,
    {
        let opcode = (instruction >> 12) as u8;
        let x = ((instruction & 0x0F00) >> 8) as usize;
        let y = ((instruction & 0x00F0) >> 4) as usize;
        let funct = (instruction & 0x000F) as usize;
        let immediate = (instruction & 0x00FF) as u8;
        let address = instruction & 0x0FFF;
        assert(instruction >> 12 == instruction / 4096 && (instruction >> 12) < 16) by (bit_vector);
        assert((instruction & 0x0F00) >> 8 == (instruction / 256) % 16) by (bit_vector);
        assert((instruction & 0x00F0) >> 4 == (instruction / 16) % 16) by (bit_vector);
        assert(instruction & 0x000F == instruction % 16) by (bit_vector);
        assert(instruction & 0x00FF == instruction % 256) by (bit_vector);
        assert(instruction & 0x0FFF == instruction % 4096) by (bit_vector);
        Self { opcode, x, y, funct, immediate, address }
    }
}

/// The glyph table, as the bytes that `font` lists.
fn font_table() -> (glyphs: [u8; 80])
    ensures
        glyphs@ == font(),
{
    let glyphs: [u8; 80] = [
        0xF0, 0x90, 0x90, 0x90, 0xF0,
        0x20, 0x60, 0x20, 0x20, 0x70,
        0xF0, 0x10, 0xF0, 0x80, 0xF0,
        0xF0, 0x10, 0xF0, 0x10, 0xF0,
        0x90, 0x90, 0xF0, 0x10, 0x10,
        0xF0, 0x80, 0xF0, 0x10, 0xF0,
        0xF0, 0x80, 0xF0, 0x90, 0xF0,
        0xF0, 0x10, 0x20, 0x40, 0x40,
        0xF0, 0x90, 0xF0, 0x90, 0xF0,
        0xF0, 0x90, 0xF0, 0x10, 0xF0,
        0xF0, 0x90, 0xF0, 0x90, 0x90,
        0xE0, 0x90, 0xE0, 0x90, 0xE0,
        0xF0, 0x80, 0x80, 0x80, 0xF0,
        0xE0, 0x90, 0x90, 0x90, 0xE0,
        0xF0, 0x80, 0xF0, 0x80, 0xF0,
        0xF0, 0x80, 0xF0, 0x80, 0x80,
    ];
    assert(glyphs@ =~= font());
    glyphs
}

/// A CHIP-8 machine: memory, registers, call stack, timers, keypad, the
/// key-wait latch and the queue of display commands not yet rendered.
#[derive(Debug)]
pub struct Chip8 {
    draw_queue: VecDeque<DrawJob>,
    stack: Vec<u16>,
    register_file: [u8; 16],
    pc: u16,
    indirect: u16,
    delay_timer: u8,
    sound_timer: u8,
    memory: [u8; 4096],
    keyboard: [bool; 16],
    key_wait: KeyWait,
}

impl View for Chip8 {
    type V = MachineState;

    closed spec fn view(&self) -> MachineState {
        MachineState {
            memory: self.memory@,
            registers: self.register_file@,
            pc: self.pc,
            index: self.indirect,
            stack: self.stack@,
            delay: self.delay_timer,
            sound: self.sound_timer,
            keys: self.keyboard@,
            latch: self.key_wait,
            queue: self.draw_queue@.map_values(|job: DrawJob| job@),
        }
    }
}

impl Chip8 {
    /// A machine with `image` loaded at `ENTRY`. What of the image does not
    /// fit below the end of memory is left out.
    pub fn new(image: &[u8]) -> (chip: Self)
        ensures
            chip@ == MachineState::boot(image@),
            chip@.wf(),
    {
        let mut memory = [0u8; MEMORY_LENGTH];
        let glyphs = font_table();
        let mut i: usize = 0;
        while i < 80
            invariant
                i <= 80,
                glyphs@ == font(),
                forall|a: int| 0 <= a < i ==> memory@[a] == font()[a],
                forall|a: int| i <= a < MEMORY_LENGTH ==> memory@[a] == 0,
            decreases 80 - i,
        {
            memory[i] = glyphs[i];
            i += 1;
        }
        let mut j: usize = 0;
        while j < image.len() && j < MEMORY_LENGTH - ENTRY
            invariant
                j <= image.len(),
                j <= MEMORY_LENGTH - ENTRY,
                forall|a: int| 0 <= a < 80 ==> memory@[a] == font()[a],
                forall|a: int| 80 <= a < ENTRY ==> memory@[a] == 0,
                forall|a: int| ENTRY <= a < ENTRY + j ==> memory@[a] == image@[a - ENTRY],
                forall|a: int| ENTRY + j <= a < MEMORY_LENGTH ==> memory@[a] == 0,
            decreases image.len() - j,
        {
            memory[ENTRY + j] = image[j];
            j += 1;
        }
        memory[ENTRY - 1] = 0;
        let chip = Self {
            draw_queue: VecDeque::new(),
            stack: Vec::new(),
            register_file: [0u8; 16],
            pc: ENTRY as u16,
            indirect: 0,
            delay_timer: 0,
            sound_timer: 0,
            memory,
            keyboard: [false; 16],
            key_wait: KeyWait::Idle,
        };
        proof {
            let booted = MachineState::boot(image@);
            assert(chip@.memory =~= booted.memory);
            assert(chip@.registers =~= booted.registers);
            assert(chip@.keys =~= booted.keys);
            assert(chip@.stack =~= booted.stack);
            assert(chip@.queue =~= booted.queue);
        }
        chip
    }

    /// Reads the instruction word at the program counter and moves the
    /// program counter past it.
    fn fetch(&mut self) -> (word: u16)
        requires
            old(self)@.pc + 1 < MEMORY_LENGTH,
        ensures
            word == old(self)@.word_at(old(self)@.pc as int),
            final(self)@ == old(self)@.fetched(),
    {
        let high = self.memory[self.pc as usize];
        let low = self.memory[self.pc as usize + 1];
        self.pc += 2;
        (high as u16) * 256 + (low as u16)
    }

    /// Clear display.
    fn clear_screen(&mut self)
        ensures
            final(self)@ == old(self)@.clear_screen(),
    {
        self.draw_queue.push_back(DrawJob::Clear);
        proof {
            assert(self@.queue =~= old(self)@.queue.push(DrawJobView::Clear));
        }
    }

    /// Return from a subroutine.
    fn ret(&mut self)
        requires
            old(self)@.stack.len() > 0,
        ensures
            final(self)@ == old(self)@.ret(),
    {
        let target = self.stack.pop();
        match target {
            Some(addr) => {
                self.pc = addr;
            },
            None => {},
        }
    }

    /// Jump to `addr`.
    fn jump(&mut self, addr: u16)
        ensures
            final(self)@ == old(self)@.jump(addr),
    {
        self.pc = addr;
    }

    /// Call the subroutine at `addr`.
    fn call(&mut self, addr: u16)
        ensures
            final(self)@ == old(self)@.call(addr),
    {
        self.stack.push(self.pc);
        self.pc = addr;
    }

    /// Skip the next instruction if `Vx == imm`.
    fn skip_vx_e_imm(&mut self, x: usize, imm: u8)
        requires
            x < 16,
            old(self)@.pc + 2 <= u16::MAX,
        ensures
            final(self)@ == old(self)@.skip_if(old(self)@.v(x as int) == imm),
    {
        if self.register_file[x] == imm {
            self.pc += 2;
        }
    }

    /// Skip the next instruction if `Vx != imm`.
    fn skip_vx_ne_imm(&mut self, x: usize, imm: u8)
        requires
            x < 16,
            old(self)@.pc + 2 <= u16::MAX,
        ensures
            final(self)@ == old(self)@.skip_if(old(self)@.v(x as int) != imm),
    {
        if self.register_file[x] != imm {
            self.pc += 2;
        }
    }

    /// Skip the next instruction if `Vx == Vy`.
    fn skip_vx_e_vy(&mut self, x: usize, y: usize)
        requires
            x < 16,
            y < 16,
            old(self)@.pc + 2 <= u16::MAX,
        ensures
            final(self)@ == old(self)@.skip_if(old(self)@.v(x as int) == old(self)@.v(y as int)),
    {
        if self.register_file[x] == self.register_file[y] {
            self.pc += 2;
        }
    }

    /// Skip the next instruction if `Vx != Vy`.
    fn skip_vx_ne_vy(&mut self, x: usize, y: usize)
        requires
            x < 16,
            y < 16,
            old(self)@.pc + 2 <= u16::MAX,
        ensures
            final(self)@ == old(self)@.skip_if(old(self)@.v(x as int) != old(self)@.v(y as int)),
    {
        if self.register_file[x] != self.register_file[y] {
            self.pc += 2;
        }
    }

    /// `Vx = imm`.
    fn load_imm(&mut self, x: usize, imm: u8)
        requires
            x < 16,
        ensures
            final(self)@ == old(self)@.load_imm(x as int, imm),
    {
        self.register_file[x] = imm;
    }

    /// `Vx += imm`, wrapping, the flag untouched.
    fn add_imm(&mut self, x: usize, imm: u8)
        requires
            x < 16,
        ensures
            final(self)@ == old(self)@.add_imm(x as int, imm),
    {
        self.register_file[x] = self.register_file[x].wrapping_add(imm);
    }

    /// `Vx = Vy`.
    fn move_reg(&mut self, x: usize, y: usize)
        requires
            x < 16,
            y < 16,
        ensures
            final(self)@ == old(self)@.move_reg(x as int, y as int),
    {
        self.register_file[x] = self.register_file[y];
    }

    /// `Vx |= Vy`; the flag is reset.
    fn or_reg(&mut self, x: usize, y: usize)
        requires
            x < 16,
            y < 16,
        ensures
            final(self)@ == old(self)@.or_reg(x as int, y as int),
    {
        self.register_file[x] = self.register_file[x] | self.register_file[y];
        self.register_file[FLAG] = 0;
    }

    /// `Vx &= Vy`; the flag is reset.
    fn and_reg(&mut self, x: usize, y: usize)
        requires
            x < 16,
            y < 16,
        ensures
            final(self)@ == old(self)@.and_reg(x as int, y as int),
    {
        self.register_file[x] = self.register_file[x] & self.register_file[y];
        self.register_file[FLAG] = 0;
    }

    /// `Vx ^= Vy`; the flag is reset.
    fn xor_reg(&mut self, x: usize, y: usize)
        requires
            x < 16,
            y < 16,
        ensures
            final(self)@ == old(self)@.xor_reg(x as int, y as int),
    {
        self.register_file[x] = self.register_file[x] ^ self.register_file[y];
        self.register_file[FLAG] = 0;
    }

    /// `Vx += Vy`, wrapping; the flag tells whether the sum overflowed.
    fn add_reg(&mut self, x: usize, y: usize)
        requires
            x < 16,
            y < 16,
        ensures
            final(self)@ == old(self)@.add_reg(x as int, y as int),
    {
        let v_x = self.register_file[x];
        let v_y = self.register_file[y];
        let carry = v_y > u8::MAX - v_x;
        self.register_file[x] = v_x.wrapping_add(v_y);
        self.register_file[FLAG] = if carry { 1 } else { 0 };
    }

    /// `Vx -= Vy`, wrapping; the flag tells that nothing was borrowed.
    fn sub_reg(&mut self, x: usize, y: usize)
        requires
            x < 16,
            y < 16,
        ensures
            final(self)@ == old(self)@.sub_reg(x as int, y as int),
    {
        let v_x = self.register_file[x];
        let v_y = self.register_file[y];
        let borrow = v_x < v_y;
        self.register_file[x] = v_x.wrapping_sub(v_y);
        self.register_file[FLAG] = if borrow { 0 } else { 1 };
    }

    /// `Vx = Vy >> 1`; the flag takes the bit shifted out.
    fn shr_reg(&mut self, x: usize, y: usize)
        requires
            x < 16,
            y < 16,
        ensures
            final(self)@ == old(self)@.shr_reg(x as int, y as int),
    {
        let v_y = self.register_file[y];
        assert(v_y >> 1 == v_y / 2 && v_y & 1 == v_y % 2) by (bit_vector);
        self.register_file[x] = v_y >> 1;
        self.register_file[FLAG] = v_y & 1;
    }

    /// `Vx = Vy - Vx`, wrapping; the flag tells that nothing was borrowed.
    fn subn_reg(&mut self, x: usize, y: usize)
        requires
            x < 16,
            y < 16,
        ensures
            final(self)@ == old(self)@.subn_reg(x as int, y as int),
    {
        let v_x = self.register_file[x];
        let v_y = self.register_file[y];
        let borrow = v_y < v_x;
        self.register_file[x] = v_y.wrapping_sub(v_x);
        self.register_file[FLAG] = if borrow { 0 } else { 1 };
    }

    /// `Vx = Vy << 1`, wrapping; the flag takes the bit shifted out.
    fn shl_reg(&mut self, x: usize, y: usize)
        requires
            x < 16,
            y < 16,
        ensures
            final(self)@ == old(self)@.shl_reg(x as int, y as int),
    {
        let v_y = self.register_file[y];
        assert((v_y & 0x7F) << 1 == (v_y * 2) % 256 && v_y >> 7 == v_y / 128) by (bit_vector);
        self.register_file[x] = (v_y & 0x7F) << 1;
        self.register_file[FLAG] = v_y >> 7;
    }

    /// `I = addr`.
    fn load_addr(&mut self, addr: u16)
        ensures
            final(self)@ == old(self)@.load_addr(addr),
    {
        self.indirect = addr;
    }

    /// Jump to `addr + V0`.
    fn jump_offset(&mut self, addr: u16)
        requires
            addr < 4096,
        ensures
            final(self)@ == old(self)@.jump_offset(addr),
    {
        self.pc = addr + self.register_file[0] as u16;
    }

    /// `Vx = random & imm`.
    fn random_and(&mut self, x: usize, imm: u8, random: u8)
        requires
            x < 16,
        ensures
            final(self)@ == old(self)@.random_and(x as int, imm, random),
    {
        self.register_file[x] = random & imm;
    }

    /// Queue the sprite of `n` rows that starts at `I`, to be drawn at
    /// `(Vx mod 64, Vy mod 32)`. The flag is left to the renderer.
    fn draw_sprite(&mut self, x: usize, y: usize, n: usize)
        requires
            x < 16,
            y < 16,
            old(self)@.index + n <= MEMORY_LENGTH,
        ensures
            final(self)@ == old(self)@.draw_sprite(x as int, y as int, n as int),
    {
        let start = self.indirect as usize;
        let mut buf: Vec<u8> = Vec::new();
        let mut i: usize = 0;
        while i < n
            invariant
                i <= n,
                start + n <= MEMORY_LENGTH,
                buf@ == self.memory@.subrange(start as int, start + i),
            decreases n - i,
        {
            buf.push(self.memory[start + i]);
            i += 1;
            assert(buf@ =~= self.memory@.subrange(start as int, start + i));
        }
        let v_x = (self.register_file[x] % 64) as usize;
        let v_y = (self.register_file[y] % 32) as usize;
        let job = DrawJob::Draw(Sprite { v_x, v_y, buf });
        self.draw_queue.push_back(job);
        proof {
            assert(self@.queue =~= old(self)@.draw_sprite(x as int, y as int, n as int).queue);
        }
    }

    /// Whether the key that `Vx` names is down.
    fn key_down(&self, x: usize) -> (down: bool)
        requires
            x < 16,
        ensures
            down == self@.key_down(x as int),
    {
        self.keyboard[(self.register_file[x] % 16) as usize]
    }

    /// Skip the next instruction if the key that `Vx` names is down.
    fn skip_pressed(&mut self, x: usize)
        requires
            x < 16,
            old(self)@.pc + 2 <= u16::MAX,
        ensures
            final(self)@ == old(self)@.skip_if(old(self)@.key_down(x as int)),
    {
        if self.key_down(x) {
            self.pc += 2;
        }
    }

    /// Skip the next instruction if the key that `Vx` names is up.
    fn skip_not_pressed(&mut self, x: usize)
        requires
            x < 16,
            old(self)@.pc + 2 <= u16::MAX,
        ensures
            final(self)@ == old(self)@.skip_if(!old(self)@.key_down(x as int)),
    {
        if !self.key_down(x) {
            self.pc += 2;
        }
    }

    /// `Vx = delay timer`.
    fn load_delay(&mut self, x: usize)
        requires
            x < 16,
        ensures
            final(self)@ == old(self)@.load_delay(x as int),
    {
        self.register_file[x] = self.delay_timer;
    }

    /// Await a key: start or continue the wait, or complete it with the key
    /// in `Vx`. Until it completes the program counter goes back onto this
    /// instruction.
    fn get_key(&mut self, x: usize)
        requires
            x < 16,
            old(self)@.pc >= 2,
        ensures
            final(self)@ == old(self)@.get_key(x as int),
    {
        match self.key_wait {
            KeyWait::Idle => {
                self.key_wait = KeyWait::Waiting;
                self.pc -= 2;
            },
            KeyWait::Waiting => {
                self.pc -= 2;
            },
            KeyWait::Pressed(_) => {
                self.pc -= 2;
            },
            KeyWait::Released(key) => {
                self.key_wait = KeyWait::Idle;
                self.register_file[x] = key;
            },
        }
    }

    /// `delay timer = Vx`.
    fn store_delay(&mut self, x: usize)
        requires
            x < 16,
        ensures
            final(self)@ == old(self)@.store_delay(x as int),
    {
        self.delay_timer = self.register_file[x];
    }

    /// `sound timer = Vx`.
    fn load_sound_timer(&mut self, x: usize)
        requires
            x < 16,
        ensures
            final(self)@ == old(self)@.load_sound_timer(x as int),
    {
        self.sound_timer = self.register_file[x];
    }

    /// `I += Vx`, wrapping at 16 bits.
    fn add_index(&mut self, x: usize)
        requires
            x < 16,
        ensures
            final(self)@ == old(self)@.add_index(x as int),
    {
        self.indirect = self.indirect.wrapping_add(self.register_file[x] as u16);
    }

    /// `I =` the address of the glyph for `Vx`.
    fn load_hex_sprite(&mut self, x: usize)
        requires
            x < 16,
        ensures
            final(self)@ == old(self)@.load_hex_sprite(x as int),
    {
        self.indirect = 5 * (self.register_file[x] as u16);
    }

    /// Store the three decimal digits of `Vx` at `I`, hundreds first.
    fn store_bcd(&mut self, x: usize)
        requires
            x < 16,
            old(self)@.index + 3 <= MEMORY_LENGTH,
        ensures
            final(self)@ == old(self)@.store_bcd(x as int),
    {
        let value = self.register_file[x];
        let at = self.indirect as usize;
        self.memory[at] = value / 100;
        self.memory[at + 1] = (value / 10) % 10;
        self.memory[at + 2] = value % 10;
    }

    /// Store `V0..=Vx` at `I`, and move `I` past them.
    fn store_block(&mut self, x: usize)
        requires
            x < 16,
            old(self)@.index + x + 1 <= MEMORY_LENGTH,
        ensures
            final(self)@ == old(self)@.store_block(x as int),
    {
        let at = self.indirect as usize;
        let mut r: usize = 0;
        while r <= x
            invariant
                r <= x + 1,
                x < 16,
                at + x + 1 <= MEMORY_LENGTH,
                self.register_file == old(self).register_file,
                self.pc == old(self).pc,
                self.indirect == old(self).indirect,
                self.stack == old(self).stack,
                self.delay_timer == old(self).delay_timer,
                self.sound_timer == old(self).sound_timer,
                self.keyboard == old(self).keyboard,
                self.key_wait == old(self).key_wait,
                self.draw_queue == old(self).draw_queue,
                forall|a: int|
                    0 <= a < MEMORY_LENGTH ==> self.memory@[a] == if at <= a < at + r {
                        old(self).register_file@[a - at]
                    } else {
                        old(self).memory@[a]
                    },
            decreases x + 1 - r,
        {
            self.memory[at + r] = self.register_file[r];
            r += 1;
        }
        self.indirect = (at + x + 1) as u16;
        proof {
            assert(self@.memory =~= old(self)@.store_block(x as int).memory);
        }
    }

    /// Load `V0..=Vx` from `I`, and move `I` past them.
    fn load_block(&mut self, x: usize)
        requires
            x < 16,
            old(self)@.index + x + 1 <= MEMORY_LENGTH,
        ensures
            final(self)@ == old(self)@.load_block(x as int),
    {
        let at = self.indirect as usize;
        let mut r: usize = 0;
        while r <= x
            invariant
                r <= x + 1,
                x < 16,
                at + x + 1 <= MEMORY_LENGTH,
                self.memory == old(self).memory,
                self.pc == old(self).pc,
                self.indirect == old(self).indirect,
                self.stack == old(self).stack,
                self.delay_timer == old(self).delay_timer,
                self.sound_timer == old(self).sound_timer,
                self.keyboard == old(self).keyboard,
                self.key_wait == old(self).key_wait,
                self.draw_queue == old(self).draw_queue,
                forall|i: int|
                    0 <= i < 16 ==> self.register_file@[i] == if i < r {
                        old(self).memory@[at + i]
                    } else {
                        old(self).register_file@[i]
                    },
            decreases x + 1 - r,
        {
            self.register_file[r] = self.memory[at + r];
            r += 1;
        }
        self.indirect = (at + x + 1) as u16;
        proof {
            assert(self@.registers =~= old(self)@.load_block(x as int).registers);
        }
    }

    /// Carries out the instruction `word`, already fetched, and tells
    /// whether it is one that the machine knows. One that it does not know
    /// changes nothing.
    fn execute(&mut self, word: u16, random: u8) -> (recognized: bool)
        requires
            2 <= old(self)@.pc <= MEMORY_LENGTH + 1,
            old(self)@.operand_fault(word) is None,
        ensures
            final(self)@ == old(self)@.execute(word, random),
            recognized == MachineState::recognizes(word),
    {
        proof {
            reveal(MachineState::execute);
        }
        let instr = InstructionDecode::decode(word);
        match instr.opcode {
            0x0 => match instr.address {
                0x0E0 => {
                    self.clear_screen();
                    true
                },
                0x0EE => {
                    self.ret();
                    true
                },
                _ => false,
            },
            0x1 => {
                self.jump(instr.address);
                true
            },
            0x2 => {
                self.call(instr.address);
                true
            },
            0x3 => {
                self.skip_vx_e_imm(instr.x, instr.immediate);
                true
            },
            0x4 => {
                self.skip_vx_ne_imm(instr.x, instr.immediate);
                true
            },
            0x5 => {
                self.skip_vx_e_vy(instr.x, instr.y);
                true
            },
            0x6 => {
                self.load_imm(instr.x, instr.immediate);
                true
            },
            0x7 => {
                self.add_imm(instr.x, instr.immediate);
                true
            },
            0x8 => match instr.funct {
                0x0 => {
                    self.move_reg(instr.x, instr.y);
                    true
                },
                0x1 => {
                    self.or_reg(instr.x, instr.y);
                    true
                },
                0x2 => {
                    self.and_reg(instr.x, instr.y);
                    true
                },
                0x3 => {
                    self.xor_reg(instr.x, instr.y);
                    true
                },
                0x4 => {
                    self.add_reg(instr.x, instr.y);
                    true
                },
                0x5 => {
                    self.sub_reg(instr.x, instr.y);
                    true
                },
                0x6 => {
                    self.shr_reg(instr.x, instr.y);
                    true
                },
                0x7 => {
                    self.subn_reg(instr.x, instr.y);
                    true
                },
                0xE => {
                    self.shl_reg(instr.x, instr.y);
                    true
                },
                _ => false,
            },
            0x9 => {
                self.skip_vx_ne_vy(instr.x, instr.y);
                true
            },
            0xA => {
                self.load_addr(instr.address);
                true
            },
            0xB => {
                self.jump_offset(instr.address);
                true
            },
            0xC => {
                self.random_and(instr.x, instr.immediate, random);
                true
            },
            0xD => {
                self.draw_sprite(instr.x, instr.y, instr.funct);
                true
            },
            0xE => match instr.immediate {
                0x9E => {
                    self.skip_pressed(instr.x);
                    true
                },
                0xA1 => {
                    self.skip_not_pressed(instr.x);
                    true
                },
                _ => false,
            },
            _ => match instr.immediate {
                0x07 => {
                    self.load_delay(instr.x);
                    true
                },
                0x0A => {
                    self.get_key(instr.x);
                    true
                },
                0x15 => {
                    self.store_delay(instr.x);
                    true
                },
                0x18 => {
                    self.load_sound_timer(instr.x);
                    true
                },
                0x1E => {
                    self.add_index(instr.x);
                    true
                },
                0x29 => {
                    self.load_hex_sprite(instr.x);
                    true
                },
                0x33 => {
                    self.store_bcd(instr.x);
                    true
                },
                0x55 => {
                    self.store_block(instr.x);
                    true
                },
                0x65 => {
                    self.load_block(instr.x);
                    true
                },
                _ => false,
            },
        }
    }

    /// The reason, if any, why the next instruction cannot be executed.
    fn next_fault(&self) -> (reason: Option<Fault>)
        ensures
            reason == self@.fault(),
    {
        if self.pc as usize + 1 >= MEMORY_LENGTH {
            return Some(Fault::FetchOutOfBounds);
        }
        let high = self.memory[self.pc as usize];
        let low = self.memory[self.pc as usize + 1];
        let word = (high as u16) * 256 + (low as u16);
        let instr = InstructionDecode::decode(word);
        let at = self.indirect as usize;
        if word == 0x00EE && self.stack.len() == 0 {
            Some(Fault::ReturnWithEmptyStack)
        } else if instr.opcode == 0xD && at + instr.funct > MEMORY_LENGTH {
            Some(Fault::OperandOutOfBounds)
        } else if instr.opcode == 0xF && instr.immediate == 0x33 && at + 3 > MEMORY_LENGTH {
            Some(Fault::OperandOutOfBounds)
        } else if instr.opcode == 0xF && (instr.immediate == 0x55 || instr.immediate == 0x65) && at
            + instr.x + 1 > MEMORY_LENGTH {
            Some(Fault::OperandOutOfBounds)
        } else {
            None
        }
    }

    /// One instruction cycle in which the random instruction, if it is the
    /// one executed, draws `random`. Hands back the word that was fetched if
    /// it is no instruction, for the host to report.
    pub fn instruction_cycle_with(&mut self, random: u8) -> (unknown: Option<u16>)
        requires
            old(self)@.fault() is None,
        ensures
            final(self)@ == old(self)@.step(random),
            unknown == old(self)@.unknown_word(),
            old(self)@.wf() ==> final(self)@.wf(),
    {
        let word = self.fetch();
        let recognized = self.execute(word, random);
        proof {
            if old(self)@.wf() {
                old(self)@.step_preserves_wf(random);
            }
        }
        if recognized {
            None
        } else {
            Some(word)
        }
    }

    /// One instruction cycle if the next instruction can be executed, and
    /// else the reason why it cannot, with the machine untouched. `Ok` holds
    /// the word that was fetched if it is no instruction.
    pub fn try_instruction_cycle(&mut self) -> (outcome: Result<Option<u16>, Fault>)
        ensures
            match outcome {
                Ok(unknown) => {
                    &&& old(self)@.fault() is None
                    &&& exists|random: u8| final(self)@ == #[trigger] old(self)@.step(random)
                    &&& unknown == old(self)@.unknown_word()
                },
                Err(reason) => old(self)@.fault() == Some(reason) && final(self)@ == old(self)@,
            },
            old(self)@.wf() ==> final(self)@.wf(),
    {
        match self.next_fault() {
            Some(reason) => Err(reason),
            None => {
                let random = random_byte();
                let unknown = self.instruction_cycle_with(random);
                Ok(unknown)
            },
        }
    }

    /// Takes note that keypad key `key` went down (`pressed`) or came up.
    pub fn handle_key(&mut self, key: u8, pressed: bool)
        requires
            key < 16,
        ensures
            final(self)@ == old(self)@.key_event(key, pressed),
            old(self)@.wf() ==> final(self)@.wf(),
    {
        self.keyboard[key as usize] = pressed;
        match self.key_wait {
            KeyWait::Waiting => {
                if pressed {
                    self.key_wait = KeyWait::Pressed(key);
                }
            },
            KeyWait::Pressed(candidate) => {
                if !pressed && candidate == key {
                    self.key_wait = KeyWait::Released(candidate);
                }
            },
            _ => {},
        }
    }

    /// The sizes of memory, register file and keypad never change.
    pub proof fn sizes(&self)
        ensures
            self@.memory.len() == MEMORY_LENGTH,
            self@.registers.len() == 16,
            self@.keys.len() == 16,
    {
    }

    /// Register `x`.
    pub fn register(&self, x: usize) -> (value: u8)
        requires
            x < 16,
        ensures
            value == self@.v(x as int),
    {
        self.register_file[x]
    }

    /// The program counter.
    pub fn program_counter(&self) -> (pc: u16)
        ensures
            pc == self@.pc,
    {
        self.pc
    }

    /// The index register.
    pub fn index_register(&self) -> (index: u16)
        ensures
            index == self@.index,
    {
        self.indirect
    }

    /// The delay timer.
    pub fn delay_timer(&self) -> (value: u8)
        ensures
            value == self@.delay,
    {
        self.delay_timer
    }

    /// The byte of memory at `addr`.
    pub fn memory_at(&self, addr: usize) -> (byte: u8)
        requires
            addr < MEMORY_LENGTH,
        ensures
            byte == self@.memory[addr as int],
    {
        self.memory[addr]
    }

    /// The number of return addresses on the call stack.
    pub fn stack_depth(&self) -> (depth: usize)
        ensures
            depth == self@.stack.len(),
    {
        self.stack.len()
    }

    /// Where the "await key" instruction stands.
    pub fn key_wait(&self) -> (latch: KeyWait)
        ensures
            latch == self@.latch,
    {
        self.key_wait
    }
}

impl Chip8Variant for Chip8 {
    open spec fn inv(&self) -> bool {
        self@.wf()
    }

    open spec fn ready(&self) -> bool {
        self@.fault() is None
    }

    open spec fn suspended(&self) -> bool {
        self@.stalled()
    }

    open spec fn tone(&self) -> u8 {
        self@.sound
    }

    open spec fn flag(&self) -> u8 {
        self@.v(FLAG as int)
    }

    open spec fn pending(&self) -> Seq<DrawJobView> {
        self@.queue
    }

    /// One instruction cycle: fetch the word at the program counter, move
    /// the program counter past it, and carry the instruction out. The
    /// random instruction draws its byte afresh; no other instruction
    /// depends on it.
    fn instruction_cycle(&mut self)
        ensures
            exists|random: u8| final(self)@ == #[trigger] old(self)@.step(random),
    {
        let random = random_byte();
        self.instruction_cycle_with(random);
        proof {
            cycle_only_appends_to_queue(old(self)@, random);
        }
    }

    fn fault(&self) -> (reason: Option<Fault>)
        ensures
            reason == self@.fault(),
    {
        self.next_fault()
    }

    /// One timer tick: both timers go down by one and stay at zero.
    fn decrement_timers(&mut self)
        ensures
            final(self)@ == old(self)@.tick_timers(),
    {
        self.delay_timer = self.delay_timer.saturating_sub(1);
        self.sound_timer = self.sound_timer.saturating_sub(1);
    }

    /// Takes note that a key of the host keyboard went down or came up. A
    /// key that is not part of the keypad changes nothing.
    fn handle_input(&mut self, key_code: KeyCode, state: ElementState)
        ensures
            final(self)@ == match keypad_index(key_code) {
                Some(key) => old(self)@.key_event(key, state == ElementState::Pressed),
                None => old(self)@,
            },
    {
        match keypad_key(key_code) {
            Some(key) => self.handle_key(key, state.is_pressed()),
            None => {},
        }
    }

    fn sound_timer(&self) -> (value: u8) {
        self.sound_timer
    }

    /// Whether a key is awaited and has not been pressed and released yet.
    fn waiting(&self) -> (stalled: bool) {
        match self.key_wait {
            KeyWait::Waiting => true,
            KeyWait::Pressed(_) => true,
            _ => false,
        }
    }

    fn poll_draw_queue(&mut self) -> (job: Option<DrawJob>)
        ensures
            final(self)@ == old(self)@.without_first_job(),
    {
        let job = self.draw_queue.pop_front();
        proof {
            assert(self@.queue =~= old(self)@.without_first_job().queue);
        }
        job
    }

    fn set_collision(&mut self, value: bool)
        ensures
            final(self)@ == old(self)@.with_collision(value),
    {
        self.register_file[FLAG] = if value { 1 } else { 0 };
    }
}

} // verus!
