use vstd::prelude::*;
use crate::chip_8::Chip8;
use crate::chip_8_variant::Chip8Variant;
use crate::display::{blank, blit, collides, Display, PIXELS};
use crate::draw_job::{DrawJob, DrawJobView};
use crate::keypad::{keypad_index, ElementState, KeyCode};
use crate::machine::{Fault, MachineState, FLAG};

verus! {

/// Microseconds between two presentations of the frame.
pub const REFRESH_MICROS: u64 = 16667;

/// Microseconds between two timer ticks.
pub const SYSTEM_MICROS: u64 = 16667;

/// Microseconds between two instruction cycles.
pub const CYCLE_MICROS: u64 = 2000;

/// `frame` after the renderer carried out `job`.
pub open spec fn paint(frame: Seq<bool>, job: DrawJobView) -> Seq<bool> {
    match job {
        DrawJobView::Clear => blank(),
        DrawJobView::Draw(sprite) => blit(frame, sprite),
    }
}

/// The flag register after the renderer carried out `job` on `frame`: a
/// drawn sprite reports whether it hit a lit pixel, a cleared display reports
/// nothing.
pub open spec fn report(frame: Seq<bool>, flag: u8, job: DrawJobView) -> u8 {
    match job {
        DrawJobView::Clear => flag,
        DrawJobView::Draw(sprite) => if collides(frame, sprite) {
            1
        } else {
            0
        },
    }
}

/// The frame and the flag register after the renderer carried out `jobs`
/// one after the other, the first one first.
pub open spec fn render_all(frame: Seq<bool>, flag: u8, jobs: Seq<DrawJobView>) -> (Seq<bool>, u8)
    decreases jobs.len(),
{
    if jobs.len() == 0 {
        (frame, flag)
    } else {
        render_all(
            paint(frame, jobs[0]),
            report(frame, flag, jobs[0]),
            jobs.subrange(1, jobs.len() as int),
        )
    }
}

/// Carries out every display command that `chip_8` has queued, oldest
/// first, on `display`, and reports each drawn sprite's collision back. Tells
/// whether there was any command, that is whether the frame is to be
/// presented anew.
pub fn render(chip_8: &mut Chip8, display: &mut Display) -> (redraw: bool)
    ensures
        final(display)@ == render_all(
            old(display)@,
            old(chip_8)@.v(FLAG as int),
            old(chip_8)@.queue,
        ).0,
        final(chip_8)@ == (MachineState {
            queue: Seq::empty(),
            registers: old(chip_8)@.registers.update(
                FLAG as int,
                render_all(old(display)@, old(chip_8)@.v(FLAG as int), old(chip_8)@.queue).1,
            ),
            ..old(chip_8)@
        }),
        old(chip_8)@.wf() ==> final(chip_8)@.wf(),
        redraw == (old(chip_8)@.queue.len() > 0),
{
    let mut redraw = false;
    proof {
        chip_8.sizes();
        assert(chip_8@.registers =~= chip_8@.registers.update(FLAG as int, chip_8@.v(FLAG as int)));
    }
    loop
        invariant
            old(chip_8)@.registers.len() == 16,
            old(chip_8)@.wf() ==> chip_8@.wf(),
            render_all(display@, chip_8@.v(FLAG as int), chip_8@.queue) == render_all(
                old(display)@,
                old(chip_8)@.v(FLAG as int),
                old(chip_8)@.queue,
            ),
            chip_8@ == (MachineState {
                queue: chip_8@.queue,
                registers: old(chip_8)@.registers.update(FLAG as int, chip_8@.v(FLAG as int)),
                ..old(chip_8)@
            }),
            redraw == (chip_8@.queue.len() < old(chip_8)@.queue.len()),
            chip_8@.queue.len() <= old(chip_8)@.queue.len(),
        ensures
            chip_8@.queue.len() == 0,
        decreases chip_8@.queue.len(),
    {
        match chip_8.poll_draw_queue() {
            Some(DrawJob::Draw(sprite)) => {
                let collision = display.draw_sprite(&sprite);
                chip_8.set_collision(collision);
            },
            Some(DrawJob::Clear) => {
                display.clear();
            },
            None => {
                break ;
            },
        }
        proof {
            assert(chip_8@.registers =~= old(chip_8)@.registers.update(
                FLAG as int,
                chip_8@.v(FLAG as int),
            ));
        }
        redraw = true;
    }
    proof {
        assert(chip_8@.queue =~= Seq::empty());
    }
    redraw
}

/// Microseconds since the host last reset each of its three clocks.
#[derive(Debug, Clone, Copy)]
pub struct Elapsed {
    pub refresh: u64,
    pub cycle: u64,
    pub system: u64,
}

/// What the host is to do after one turn of its loop, in the order of the
/// fields.
#[derive(Debug, Clone, Copy, PartialEq, Eq)]
pub struct Turn {
    /// Let the tone sound.
    pub play: bool,
    /// The timers were ticked: reset the system clock.
    pub ticked: bool,
    /// Silence the tone.
    pub pause: bool,
    /// An instruction cycle was due: reset the cycle clock.
    pub cycled: bool,
    /// The word that the cycle fetched and that is no instruction, to report.
    pub unknown: Option<u16>,
    /// A presentation was due: reset the refresh clock.
    pub refreshed: bool,
    /// Present the frame.
    pub present: bool,
}

/// A machine with its display, and whether the frame has changed since it
/// was last presented.
#[derive(Debug)]
pub struct Console {
    chip_8: Chip8,
    display: Display,
    redraw: bool,
}

/// The mathematical value of a [`Console`].
pub struct ConsoleView {
    pub machine: MachineState,
    pub frame: Seq<bool>,
    pub redraw: bool,
}

impl ConsoleView {
    /// Whether the machine is well-formed and the frame has the size of the
    /// display.
    pub open spec fn wf(self) -> bool {
        self.machine.wf() && self.frame.len() == PIXELS
    }

    /// The console after the timer tick, if one is due.
    pub open spec fn ticked(self, elapsed: Elapsed) -> ConsoleView {
        if elapsed.system >= SYSTEM_MICROS {
            ConsoleView { machine: self.machine.tick_timers(), ..self }
        } else {
            self
        }
    }

    /// Whether this turn executes an instruction: a cycle is due and the
    /// machine is not held by a key wait.
    pub open spec fn runs(self, elapsed: Elapsed) -> bool {
        elapsed.cycle >= CYCLE_MICROS && !self.machine.stalled()
    }

    /// The reason, if any, why this turn cannot be completed: it is to
    /// execute an instruction and the machine cannot.
    pub open spec fn fault(self, elapsed: Elapsed) -> Option<Fault> {
        if self.runs(elapsed) {
            self.ticked(elapsed).machine.fault()
        } else {
            None
        }
    }

    /// The console after all display commands have been carried out.
    pub open spec fn rendered(self) -> ConsoleView {
        let after = render_all(self.frame, self.machine.v(FLAG as int), self.machine.queue);
        ConsoleView {
            machine: MachineState {
                queue: Seq::empty(),
                registers: self.machine.registers.update(FLAG as int, after.1),
                ..self.machine
            },
            frame: after.0,
            redraw: self.redraw || self.machine.queue.len() > 0,
        }
    }

    /// The console after the tick and the cycle, as far as each is due. A
    /// cycle that is due ends with the rendering of what has been queued.
    pub open spec fn cycled(self, elapsed: Elapsed, random: u8) -> ConsoleView {
        let ticked = self.ticked(elapsed);
        if elapsed.cycle >= CYCLE_MICROS {
            if ticked.machine.stalled() {
                ticked.rendered()
            } else {
                ConsoleView { machine: ticked.machine.step(random), ..ticked }.rendered()
            }
        } else {
            ticked
        }
    }

    /// The console after one turn of the host's loop.
    pub open spec fn turned(self, elapsed: Elapsed, random: u8) -> ConsoleView {
        let cycled = self.cycled(elapsed, random);
        if elapsed.refresh >= REFRESH_MICROS {
            ConsoleView { redraw: false, ..cycled }
        } else {
            cycled
        }
    }

    /// What one turn of the loop asks of the host.
    pub open spec fn orders(self, elapsed: Elapsed, random: u8) -> Turn {
        let ticked = self.ticked(elapsed);
        Turn {
            play: self.machine.sound != 0,
            ticked: elapsed.system >= SYSTEM_MICROS,
            pause: elapsed.system >= SYSTEM_MICROS && ticked.machine.sound == 0,
            cycled: elapsed.cycle >= CYCLE_MICROS,
            unknown: if self.runs(elapsed) {
                ticked.machine.unknown_word()
            } else {
                None
            },
            refreshed: elapsed.refresh >= REFRESH_MICROS,
            present: elapsed.refresh >= REFRESH_MICROS && self.cycled(elapsed, random).redraw,
        }
    }
}

impl View for Console {
    type V = ConsoleView;

    closed spec fn view(&self) -> ConsoleView {
        ConsoleView { machine: self.chip_8@, frame: self.display@, redraw: self.redraw }
    }
}

impl Console {
    /// A console whose machine has `image` loaded and whose display is
    /// blank.
    pub fn new(image: &[u8]) -> (console: Self)
        ensures
            console@ == (ConsoleView {
                machine: MachineState::boot(image@),
                frame: blank(),
                redraw: false,
            }),
            console@.wf(),
    {
        Console { chip_8: Chip8::new(image), display: Display::new(), redraw: false }
    }

    /// The machine.
    pub fn chip_8(&self) -> (chip_8: &Chip8)
        ensures
            chip_8@ == self@.machine,
    {
        &self.chip_8
    }

    /// The display.
    pub fn display(&self) -> (display: &Display)
        ensures
            display@ == self@.frame,
    {
        &self.display
    }

    /// Takes note that a key of the host keyboard went down or came up.
    pub fn handle_input(&mut self, key_code: KeyCode, state: ElementState)
        ensures
            old(self)@.wf() ==> final(self)@.wf(),
            final(self)@ == (ConsoleView {
                machine: match keypad_index(key_code) {
                    Some(key) => old(self)@.machine.key_event(key, state == ElementState::Pressed),
                    None => old(self)@.machine,
                },
                ..old(self)@
            }),
    {
        self.chip_8.handle_input(key_code, state);
    }

    /// Carries out the display commands that the machine has queued.
    pub fn render(&mut self)
        ensures
            old(self)@.wf() ==> final(self)@.wf(),
            final(self)@ == old(self)@.rendered(),
    {
        let drawn = render(&mut self.chip_8, &mut self.display);
        if drawn {
            self.redraw = true;
        }
        proof {
            self.display.frame_size();
        }
    }

    /// One turn of the host's loop, given the time since each clock was last
    /// reset: the timer tick if it is due; then, if a cycle is due, one
    /// instruction unless a key wait holds the machine, and the rendering of
    /// what has been queued; then the decision whether to present the frame.
    /// The host carries out what the result orders.
    ///
    /// Where the instruction cannot be executed the turn ends after the tick
    /// with the reason.
    pub fn main_loop(&mut self, elapsed: Elapsed) -> (outcome: Result<Turn, Fault>)
        ensures
            old(self)@.wf() ==> final(self)@.wf(),
            match outcome {
                Ok(turn) => {
                    &&& old(self)@.fault(elapsed) is None
                    &&& exists|random: u8|
                        final(self)@ == #[trigger] old(self)@.turned(elapsed, random) && turn
                            == old(self)@.orders(elapsed, random)
                },
                Err(reason) => {
                    &&& old(self)@.fault(elapsed) == Some(reason)
                    &&& final(self)@ == old(self)@.ticked(elapsed)
                },
            },
    {
        let play = self.chip_8.sound_timer() != 0;
        let ticked = elapsed.system >= SYSTEM_MICROS;
        let mut pause = false;
        if ticked {
            self.chip_8.decrement_timers();
            pause = self.chip_8.sound_timer() == 0;
        }
        let cycled = elapsed.cycle >= CYCLE_MICROS;
        let mut unknown: Option<u16> = None;
        let ghost mut drawn: u8 = 0;
        if cycled {
            if !self.chip_8.waiting() {
                match self.chip_8.try_instruction_cycle() {
                    Ok(word) => {
                        unknown = word;
                        proof {
                            drawn = choose|random: u8|
                                self.chip_8@ == #[trigger] old(self)@.ticked(
                                    elapsed,
                                ).machine.step(random);
                        }
                    },
                    Err(reason) => {
                        return Err(reason);
                    },
                }
            }
            self.render();
        }
        let refreshed = elapsed.refresh >= REFRESH_MICROS;
        let mut present = false;
        if refreshed {
            present = self.redraw;
            self.redraw = false;
        }
        let turn = Turn { play, ticked, pause, cycled, unknown, refreshed, present };
        proof {
            assert(self@ == old(self)@.turned(elapsed, drawn));
            assert(turn == old(self)@.orders(elapsed, drawn));
        }
        Ok(turn)
    }
}

} // verus!
