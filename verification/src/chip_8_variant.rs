use vstd::prelude::*;
use crate::draw_job::{DrawJob, DrawJobView};
use crate::keypad::{ElementState, KeyCode};
use crate::machine::Fault;

verus! {

/// What a host needs of a machine of the CHIP-8 family: cycles and timer
/// ticks that the host paces, key events, the sound timer, and the queue of
/// display commands with the collision report that answers a drawn sprite.
///
/// The contracts speak of a machine through six abstract values, so that a
/// machine with another instruction set can meet them too.
pub trait Chip8Variant {
    /// Whether the machine is in a state that its own operations can reach.
    spec fn inv(&self) -> bool;

    /// Whether the next instruction can be executed.
    spec fn ready(&self) -> bool;

    /// Whether a cycle would change nothing because a key is awaited.
    spec fn suspended(&self) -> bool;

    /// The sound timer.
    spec fn tone(&self) -> u8;

    /// The flag register, which a collision report is written to.
    spec fn flag(&self) -> u8;

    /// The display commands that the renderer has not taken yet, oldest
    /// first.
    spec fn pending(&self) -> Seq<DrawJobView>;

    /// Executes one instruction. Display commands are only ever added, at
    /// the end of the queue.
    fn instruction_cycle(&mut self)
        requires
            old(self).ready(),
        ensures
            old(self).inv() ==> final(self).inv(),
            old(self).pending().is_prefix_of(final(self).pending()),
    ;

    /// The reason, if any, why the next instruction cannot be executed.
    fn fault(&self) -> (reason: Option<Fault>)
        ensures
            reason is None <==> self.ready(),
    ;

    /// One timer tick: the sound timer goes down by one and stays at zero.
    fn decrement_timers(&mut self)
        ensures
            old(self).inv() ==> final(self).inv(),
            final(self).tone() == if old(self).tone() == 0 {
                0
            } else {
                old(self).tone() - 1
            },
            final(self).pending() == old(self).pending(),
            final(self).flag() == old(self).flag(),
            final(self).ready() == old(self).ready(),
            final(self).suspended() == old(self).suspended(),
    ;

    /// Takes note that a key of the host keyboard went down or came up.
    fn handle_input(&mut self, key_code: KeyCode, state: ElementState)
        ensures
            old(self).inv() ==> final(self).inv(),
            final(self).tone() == old(self).tone(),
            final(self).pending() == old(self).pending(),
            final(self).flag() == old(self).flag(),
    ;

    /// The sound timer: a tone should sound while it is not zero.
    fn sound_timer(&self) -> (value: u8)
        ensures
            value == self.tone(),
    ;

    /// Whether a cycle would change nothing because a key is awaited.
    fn waiting(&self) -> (stalled: bool)
        ensures
            stalled == self.suspended(),
    ;

    /// Takes the oldest display command off the queue, if there is one.
    fn poll_draw_queue(&mut self) -> (job: Option<DrawJob>)
        ensures
            old(self).inv() ==> final(self).inv(),
            match job {
                Some(first) => {
                    &&& old(self).pending().len() > 0
                    &&& first@ == old(self).pending()[0]
                    &&& final(self).pending() == old(self).pending().subrange(
                        1,
                        old(self).pending().len() as int,
                    )
                },
                None => old(self).pending().len() == 0 && final(self).pending().len() == 0,
            },
            final(self).tone() == old(self).tone(),
            final(self).flag() == old(self).flag(),
            final(self).suspended() == old(self).suspended(),
    ;

    /// Takes note of whether the sprite just drawn hit a lit pixel: the flag
    /// register becomes 1 if it did and 0 if not.
    fn set_collision(&mut self, value: bool)
        ensures
            old(self).inv() ==> final(self).inv(),
            final(self).flag() == if value { 1u8 } else { 0u8 },
            final(self).pending() == old(self).pending(),
            final(self).tone() == old(self).tone(),
            final(self).suspended() == old(self).suspended(),
    ;
}

} // verus!
