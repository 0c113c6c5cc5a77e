use vstd::prelude::*;
use crate::chip_8::InstructionDecode;
use crate::machine::{KeyWait, MachineState, FLAG, MEMORY_LENGTH};

verus! {

/// The instruction word with the digit `opcode` first, then the register
/// digit `x` and the byte `immediate`.
pub open spec fn word_of(opcode: int, x: int, immediate: int) -> u16 {
    (opcode * 4096 + x * 256 + immediate) as u16
}

/// The byte of an instruction word whose last two digits are `y` and `n`.
pub open spec fn digits(y: int, n: int) -> int {
    y * 16 + n
}

proof fn fields_of_word(opcode: u16, x: u16, immediate: u16, word: u16)
    by (bit_vector)
    requires
        opcode < 16,
        x < 16,
        immediate < 256,
        word == opcode * 4096 + x * 256 + immediate,
    ensures
        word / 4096 == opcode,
        (word / 256) % 16 == x,
        (word / 16) % 16 == immediate / 16,
        word % 16 == immediate % 16,
        word % 256 == immediate,
        word % 4096 == x * 256 + immediate,
{
}

/// Decoding gives back the parts that a word was made of.
pub proof fn decode_of_word(opcode: int, x: int, immediate: int)
    requires
        0 <= opcode < 16,
        0 <= x < 16,
        0 <= immediate < 256,
    ensures
        InstructionDecode::of(word_of(opcode, x, immediate)) == (InstructionDecode {
            opcode: opcode as u8,
            x: x as usize,
            y: (immediate / 16) as usize,
            funct: (immediate % 16) as usize,
            immediate: immediate as u8,
            address: (x * 256 + immediate) as u16,
        }),
{
    fields_of_word(opcode as u16, x as u16, immediate as u16, word_of(opcode, x, immediate));
}

/// Whether the next instruction of `s` lies inside memory and is the word
/// made of these parts.
pub open spec fn next_is(s: MachineState, opcode: int, x: int, immediate: int) -> bool {
    &&& 0 <= opcode < 16
    &&& 0 <= x < 16
    &&& 0 <= immediate < 256
    &&& s.pc + 1 < MEMORY_LENGTH
    &&& s.word_at(s.pc as int) == word_of(opcode, x, immediate)
}

/// What a cycle does when the next instruction adds an immediate.
pub proof fn step_add_immediate(s: MachineState, x: int, k: u8, random: u8)
    requires
        next_is(s, 0x7, x, k as int),
    ensures
        s.step(random) == s.fetched().add_imm(x, k),
{
    decode_of_word(0x7, x, k as int);
    reveal(MachineState::execute);
}

/// Adding an immediate wraps modulo 256 and touches no other register, the
/// flag included: after two such additions in a row `Vx` holds the sum of
/// the three values modulo 256.
pub proof fn add_immediate_twice_wraps(s: MachineState, x: int, k1: u8, k2: u8, r1: u8, r2: u8)
    requires
        s.wf(),
        next_is(s, 0x7, x, k1 as int),
        next_is(s.step(r1), 0x7, x, k2 as int),
    ensures
        s.step(r1).step(r2).v(x) == (s.v(x) + k1 + k2) % 256,
        forall|r: int| 0 <= r < 16 && r != x ==> s.step(r1).step(r2).v(r) == s.v(r),
        s.step(r1).step(r2).pc == s.pc + 4,
{
    step_add_immediate(s, x, k1, r1);
    step_add_immediate(s.step(r1), x, k2, r2);
}

/// Subtraction `Vx - Vy` leaves 1 in the flag register exactly when
/// `Vx >= Vy` held before, and 0 otherwise; the difference wraps.
pub proof fn subtract_flags_no_borrow(s: MachineState, x: int, y: int, random: u8)
    requires
        s.wf(),
        0 <= y < 16,
        next_is(s, 0x8, x, digits(y, 0x5)),
    ensures
        s.step(random) == s.fetched().sub_reg(x, y),
        s.step(random).v(FLAG as int) == if s.v(x) >= s.v(y) { 1u8 } else { 0u8 },
        x != FLAG ==> s.step(random).v(x) == (s.v(x) - s.v(y)) % 256,
{
    decode_of_word(0x8, x, digits(y, 0x5));
    reveal(MachineState::execute);
}

/// Reverse subtraction `Vy - Vx` leaves 1 in the flag register exactly when
/// `Vy >= Vx` held before, and 0 otherwise; the difference wraps.
pub proof fn reverse_subtract_flags_no_borrow(s: MachineState, x: int, y: int, random: u8)
    requires
        s.wf(),
        0 <= y < 16,
        next_is(s, 0x8, x, digits(y, 0x7)),
    ensures
        s.step(random) == s.fetched().subn_reg(x, y),
        s.step(random).v(FLAG as int) == if s.v(y) >= s.v(x) { 1u8 } else { 0u8 },
        x != FLAG ==> s.step(random).v(x) == (s.v(y) - s.v(x)) % 256,
{
    decode_of_word(0x8, x, digits(y, 0x7));
    reveal(MachineState::execute);
}

/// Addition of two registers wraps, and leaves 1 in the flag register
/// exactly when the sum did not fit in a byte.
pub proof fn add_flags_carry(s: MachineState, x: int, y: int, random: u8)
    requires
        s.wf(),
        0 <= y < 16,
        next_is(s, 0x8, x, digits(y, 0x4)),
    ensures
        s.step(random) == s.fetched().add_reg(x, y),
        s.step(random).v(FLAG as int) == if s.v(x) + s.v(y) > 255 { 1u8 } else { 0u8 },
        x != FLAG ==> s.step(random).v(x) == (s.v(x) + s.v(y)) % 256,
{
    decode_of_word(0x8, x, digits(y, 0x4));
    reveal(MachineState::execute);
}

/// OR, AND and XOR of two registers leave the flag register at 0, whatever
/// it held and whichever registers are named.
pub proof fn bitwise_resets_flag(s: MachineState, x: int, y: int, selector: int, random: u8)
    requires
        s.wf(),
        0 <= y < 16,
        1 <= selector <= 3,
        next_is(s, 0x8, x, digits(y, selector)),
    ensures
        s.step(random).v(FLAG as int) == 0,
        x != FLAG ==> s.step(random).v(x) == if selector == 1 {
            s.v(x) | s.v(y)
        } else if selector == 2 {
            s.v(x) & s.v(y)
        } else {
            s.v(x) ^ s.v(y)
        },
{
    decode_of_word(0x8, x, digits(y, selector));
    reveal(MachineState::execute);
}

/// A shift to the right leaves in the flag register the lowest bit that the
/// source register `Vy` held before, and in `Vx` the rest.
pub proof fn shift_right_flags_low_bit(s: MachineState, x: int, y: int, random: u8)
    requires
        s.wf(),
        0 <= y < 16,
        next_is(s, 0x8, x, digits(y, 0x6)),
    ensures
        s.step(random) == s.fetched().shr_reg(x, y),
        s.step(random).v(FLAG as int) == s.v(y) & 1,
        x != FLAG ==> s.step(random).v(x) == s.v(y) >> 1,
{
    decode_of_word(0x8, x, digits(y, 0x6));
    reveal(MachineState::execute);
    let source = s.v(y);
    assert(source % 2 == source & 1 && source / 2 == source >> 1) by (bit_vector);
}

/// A shift to the left leaves in the flag register the highest bit that the
/// source register `Vy` held before, and in `Vx` the rest, moved up.
pub proof fn shift_left_flags_high_bit(s: MachineState, x: int, y: int, random: u8)
    requires
        s.wf(),
        0 <= y < 16,
        next_is(s, 0x8, x, digits(y, 0xE)),
    ensures
        s.step(random) == s.fetched().shl_reg(x, y),
        s.step(random).v(FLAG as int) == s.v(y) >> 7,
        x != FLAG ==> s.step(random).v(x) == (s.v(y) & 0x7F) << 1,
{
    decode_of_word(0x8, x, digits(y, 0xE));
    reveal(MachineState::execute);
    let source = s.v(y);
    assert(source / 128 == source >> 7 && (source * 2) % 256 == (source & 0x7F) << 1)
        by (bit_vector);
}

/// While a key is awaited and has not been pressed and released, a cycle
/// changes nothing: neither the program counter nor anything else.
pub proof fn stalled_cycle_changes_nothing(s: MachineState, random: u8)
    requires
        s.wf(),
        s.stalled(),
    ensures
        s.step(random) == s,
{
    reveal(MachineState::execute);
}

/// A machine that awaits a key can always go through a cycle: the
/// instruction it rests on lies inside memory and reads no operand.
pub proof fn awaiting_machine_is_ready(s: MachineState)
    requires
        s.wf(),
        s.latch != KeyWait::Idle,
    ensures
        s.fault() is None,
{
    let word = s.word_at(s.pc as int);
    assert(word / 4096 == 0xF && word % 256 == 0x0A ==> word != 0x00EE && word % 256 != 0x33
        && word % 256 != 0x55 && word % 256 != 0x65);
}

/// The whole course of one key wait. The first cycle on an "await key"
/// instruction suspends the machine; a key going down becomes the candidate;
/// a cycle in between changes nothing; the candidate coming up arms the
/// latch; and the cycle after that, the third, writes the key to `Vx` and
/// moves the program counter past the instruction, by exactly 2.
pub proof fn key_wait_resolves_on_third_cycle(
    s: MachineState,
    x: int,
    key: u8,
    r1: u8,
    r2: u8,
    r3: u8,
)
    requires
        s.wf(),
        s.latch == KeyWait::Idle,
        key < 16,
        next_is(s, 0xF, x, 0x0A),
    ensures
        ({
            let suspended = s.step(r1);
            let pressed = suspended.key_event(key, true);
            let polled = pressed.step(r2);
            let released = polled.key_event(key, false);
            let resolved = released.step(r3);
            &&& suspended == MachineState { latch: KeyWait::Waiting, ..s }
            &&& pressed.latch == KeyWait::Pressed(key)
            &&& polled == pressed
            &&& released.latch == KeyWait::Released(key)
            &&& released.pc == s.pc
            &&& released.registers == s.registers
            &&& resolved.latch == KeyWait::Idle
            &&& resolved.pc == s.pc + 2
            &&& resolved.registers == s.registers.update(x, key)
            &&& resolved.memory == s.memory
            &&& resolved.stack == s.stack
            &&& resolved.index == s.index
        }),
{
    decode_of_word(0xF, x, 0x0A);
    reveal(MachineState::execute);
    let suspended = s.step(r1);
    assert(suspended == MachineState { latch: KeyWait::Waiting, ..s });
    let pressed = suspended.key_event(key, true);
    assert(pressed.wf());
    stalled_cycle_changes_nothing(pressed, r2);
}

/// While one key is the candidate, another key coming up does not complete
/// the wait: the latch stays as it is and the next cycle changes nothing.
pub proof fn release_of_another_key_is_ignored(
    s: MachineState,
    key: u8,
    other: u8,
    random: u8,
)
    requires
        s.wf(),
        s.latch == KeyWait::Pressed(key),
        other < 16,
        other != key,
    ensures
        s.key_event(other, false).latch == KeyWait::Pressed(key),
        s.key_event(other, false).step(random) == s.key_event(other, false),
{
    let after = s.key_event(other, false);
    assert(after.wf());
    stalled_cycle_changes_nothing(after, random);
}

/// A key event keeps a well-formed state well-formed, and touches nothing
/// but the keypad and the latch.
pub proof fn key_event_preserves_wf(s: MachineState, key: u8, pressed: bool)
    requires
        s.wf(),
        key < 16,
    ensures
        s.key_event(key, pressed).wf(),
        s.key_event(key, pressed) == (MachineState {
            keys: s.key_event(key, pressed).keys,
            latch: s.key_event(key, pressed).latch,
            ..s
        }),
{
}

/// Only the random instruction looks at the random byte.
pub proof fn only_random_instruction_draws(s: MachineState, r1: u8, r2: u8)
    requires
        s.word_at(s.pc as int) / 4096 != 0xC,
    ensures
        s.step(r1) == s.step(r2),
{
    reveal(MachineState::execute);
}

/// The random instruction leaves in `Vx` the random byte masked by the
/// immediate, so no bit outside the mask is ever set.
pub proof fn random_is_masked(s: MachineState, x: int, mask: u8, random: u8)
    requires
        s.wf(),
        next_is(s, 0xC, x, mask as int),
    ensures
        s.step(random) == s.fetched().random_and(x, mask, random),
        s.step(random).v(x) == random & mask,
        s.step(random).v(x) & !mask == 0,
{
    decode_of_word(0xC, x, mask as int);
    reveal(MachineState::execute);
    assert((random & mask) & !mask == 0) by (bit_vector);
}

/// A word that is no instruction only moves the program counter on.
pub proof fn unknown_word_is_skipped(s: MachineState, random: u8)
    requires
        !MachineState::recognizes(s.word_at(s.pc as int)),
    ensures
        s.step(random) == s.fetched(),
{
    reveal(MachineState::execute);
}

/// No instruction moves a timer, but the two that set one: the delay timer
/// changes only under `Fx15`, the sound timer only under `Fx18`.
pub proof fn cycle_leaves_timers(s: MachineState, random: u8)
    requires
        s.wf(),
    ensures
        !(s.word_at(s.pc as int) / 4096 == 0xF && s.word_at(s.pc as int) % 256 == 0x15)
            ==> s.step(random).delay == s.delay,
        !(s.word_at(s.pc as int) / 4096 == 0xF && s.word_at(s.pc as int) % 256 == 0x18)
            ==> s.step(random).sound == s.sound,
{
    reveal(MachineState::execute);
}

/// No instruction writes to memory but the two that store: memory changes
/// only under `Fx33` and `Fx55`. And no instruction moves a key.
pub proof fn cycle_leaves_memory_and_keys(s: MachineState, random: u8)
    ensures
        !(s.word_at(s.pc as int) / 4096 == 0xF && (s.word_at(s.pc as int) % 256 == 0x33
            || s.word_at(s.pc as int) % 256 == 0x55)) ==> s.step(random).memory == s.memory,
        s.step(random).keys == s.keys,
{
    reveal(MachineState::execute);
}

/// A timer tick takes one off each timer that is not zero, and nothing else
/// changes; after 255 ticks at the latest both are zero and stay so.
pub proof fn tick_saturates(s: MachineState)
    ensures
        s.tick_timers().delay == if s.delay == 0 { 0 } else { s.delay - 1 },
        s.tick_timers().sound == if s.sound == 0 { 0 } else { s.sound - 1 },
        s.tick_timers() == (MachineState {
            delay: s.tick_timers().delay,
            sound: s.tick_timers().sound,
            ..s
        }),
        s.wf() ==> s.tick_timers().wf(),
{
}

/// A cycle never takes a command off the draw queue nor reorders it: the
/// queue stays as it is or grows by one command at its end.
pub proof fn cycle_only_appends_to_queue(s: MachineState, random: u8)
    ensures
        s.step(random).queue == s.queue || (s.step(random).queue.len() == s.queue.len() + 1
            && s.step(random).queue.drop_last() == s.queue),
{
    reveal(MachineState::execute);
    let after = s.step(random);
    if after.queue != s.queue {
        assert(after.queue.drop_last() =~= s.queue);
    }
}

/// The three bytes that the BCD instruction stores are decimal digits and
/// spell the value of the register, hundreds first.
pub proof fn bcd_spells_value(s: MachineState, x: int)
    requires
        s.wf(),
        0 <= x < 16,
        s.index + 3 <= MEMORY_LENGTH,
    ensures
        ({
            let after = s.store_bcd(x);
            let at = s.index as int;
            &&& after.memory[at] < 10 && after.memory[at + 1] < 10 && after.memory[at + 2] < 10
            &&& after.memory[at] * 100 + after.memory[at + 1] * 10 + after.memory[at + 2] == s.v(x)
            &&& forall|a: int|
                0 <= a < MEMORY_LENGTH && !(at <= a < at + 3) ==> after.memory[a] == s.memory[a]
        }),
{
}

/// Storing `V0..=Vx` at an address and loading them again from the same
/// address gives every register the value it had, whatever was done to
/// `registers` in between; each of the two moves the index register on by
/// `x + 1`.
pub proof fn block_round_trip(s: MachineState, x: int, scrambled: Seq<u8>)
    requires
        s.wf(),
        0 <= x < 16,
        s.index + x + 1 <= MEMORY_LENGTH,
        scrambled.len() == 16,
        forall|r: int| x < r < 16 ==> scrambled[r] == s.registers[r],
    ensures
        ({
            let stored = s.store_block(x);
            let rewound = MachineState { registers: scrambled, index: s.index, ..stored };
            let loaded = rewound.load_block(x);
            &&& stored.index == s.index + x + 1
            &&& stored.registers == s.registers
            &&& loaded.index == s.index + x + 1
            &&& loaded.registers == s.registers
            &&& loaded.memory == stored.memory
        }),
{
    let stored = s.store_block(x);
    let rewound = MachineState { registers: scrambled, index: s.index, ..stored };
    let loaded = rewound.load_block(x);
    assert(loaded.registers =~= s.registers);
}

/// Three instructions in a row: store `V0..=Vx` at `I`, set `I` back to
/// where it was, load `V0..=Vx`. The registers end as they began, and each of
/// the two block instructions leaves the index register `x + 1` past the
/// address it started from.
pub proof fn stored_block_loads_back(s: MachineState, x: int, r1: u8, r2: u8, r3: u8)
    requires
        s.wf(),
        s.fault() is None,
        next_is(s, 0xF, x, 0x55),
        next_is(s.step(r1), 0xA, s.index as int / 256, s.index as int % 256),
        next_is(s.step(r1).step(r2), 0xF, x, 0x65),
    ensures
        s.step(r1).index == s.index + x + 1,
        s.step(r1).registers == s.registers,
        s.step(r1).step(r2).index == s.index,
        s.step(r1).step(r2).step(r3).index == s.index + x + 1,
        s.step(r1).step(r2).step(r3).registers == s.registers,
        s.step(r1).step(r2).step(r3).pc == s.pc + 6,
{
    let stored = s.step(r1);
    let rewound = stored.step(r2);
    let loaded = rewound.step(r3);
    decode_of_word(0xF, x, 0x55);
    decode_of_word(0xA, s.index as int / 256, s.index as int % 256);
    decode_of_word(0xF, x, 0x65);
    reveal(MachineState::execute);
    assert(stored == s.fetched().store_block(x));
    assert(rewound == stored.fetched().load_addr(s.index));
    assert(loaded == rewound.fetched().load_block(x));
    assert(loaded.registers =~= s.registers);
}

/// A call and the return that answers it: the call leaves the address of
/// the instruction after it on the stack, and the return takes it off again
/// and goes on from there with the stack as it was.
pub proof fn return_undoes_call(s: MachineState, target: u16)
    ensures
        s.call(target).pc == target,
        s.call(target).stack.last() == s.pc,
        s.call(target).ret() == s,
{
    assert(s.call(target).ret().stack =~= s.stack);
}

} // verus!
