//! What one pass over the control panel asks of the application, and the
//! seed that the panel proposes.

use crate::clock::{since_unix_epoch, wall_clock_now, whole_nanos};
use crate::rng::engine::{CommandView, RngCommand};
use vstd::prelude::*;
use vstd::string::*;

verus! {

/// One more than the largest seed that the panel proposes.
pub const SEED_MODULUS: u128 = 0x7FFF_FFFF_FFFF;

/// The requests that one pass over the control panel collected.
#[derive(Clone, Copy, Debug, PartialEq, Eq, Structural)]
pub struct UiActions {
    /// Compile the recurrence source text anew.
    pub compile_code: bool,
    /// Reset the generator state and the batch size.
    pub reset_rng: bool,
    /// Replace the generator state with this seed.
    pub set_seed: Option<i64>,
    /// Pause the generation if it runs, resume it if it is paused.
    pub toggle_pause: bool,
    /// Empty the accumulation windows.
    pub clear_points: bool,
    /// Compile the function source text anew and sample it.
    pub compile_math: bool,
}

impl Default for UiActions {
    fn default() -> (actions: Self)
        ensures
            actions == (UiActions {
                compile_code: false,
                reset_rng: false,
                set_seed: None,
                toggle_pause: false,
                clear_points: false,
                compile_math: false,
            }),
    {
        UiActions {
            compile_code: false,
            reset_rng: false,
            set_seed: None,
            toggle_pause: false,
            clear_points: false,
            compile_math: false,
        }
    }
}

/// The views of a sequence of commands.
pub open spec fn command_views(commands: Seq<RngCommand>) -> Seq<CommandView> {
    commands.map_values(|command: RngCommand| command@)
}

impl UiActions {
    /// The commands that these requests send to the generation worker, in
    /// the order in which they are sent: new source text, then a reset, then
    /// a seed, then a pause where the worker is not paused and a resume where
    /// it is.
    pub open spec fn rng_commands_spec(self, code: Seq<char>, paused: bool) -> Seq<CommandView> {
        let compile = if self.compile_code {
            seq![CommandView::UpdateCode(code)]
        } else {
            seq![]
        };
        let reset = if self.reset_rng {
            seq![CommandView::Reset]
        } else {
            seq![]
        };
        let seed = match self.set_seed {
            Some(seed) => seq![CommandView::SetSeed(seed)],
            None => seq![],
        };
        let pause = if !self.toggle_pause {
            seq![]
        } else if paused {
            seq![CommandView::Resume]
        } else {
            seq![CommandView::Pause]
        };
        compile + reset + seed + pause
    }

    /// The commands that these requests send to the generation worker, given
    /// the source text in the editor and whether the worker is paused.
    pub fn rng_commands(&self, code: &str, paused: bool) -> (commands: Vec<RngCommand>)
        ensures
            command_views(commands@) == self.rng_commands_spec(code@, paused),
    {
        let mut commands: Vec<RngCommand> = Vec::new();
        assert(command_views(commands@) == Seq::<CommandView>::empty());
        if self.compile_code {
            let ghost before = commands@;
            commands.push(RngCommand::UpdateCode(String::from_str(code)));
            assert(command_views(commands@) == command_views(before).push(CommandView::UpdateCode(code@)));
        }
        if self.reset_rng {
            let ghost before = commands@;
            commands.push(RngCommand::Reset);
            assert(command_views(commands@) == command_views(before).push(CommandView::Reset));
        }
        match self.set_seed {
            Some(seed) => {
                let ghost before = commands@;
                commands.push(RngCommand::SetSeed(seed));
                assert(command_views(commands@) == command_views(before).push(CommandView::SetSeed(seed)));
            },
            None => {},
        }
        if self.toggle_pause {
            let ghost before = commands@;
            if paused {
                commands.push(RngCommand::Resume);
                assert(command_views(commands@) == command_views(before).push(CommandView::Resume));
            } else {
                commands.push(RngCommand::Pause);
                assert(command_views(commands@) == command_views(before).push(CommandView::Pause));
            }
        }
        commands
    }
}

/// The seed that a count of nanoseconds gives: its remainder by
/// [`SEED_MODULUS`], or one where that is zero. No count at all gives one.
pub open spec fn seed_spec(nanos: Option<u128>) -> int {
    match nanos {
        Some(count) => if count % SEED_MODULUS == 0 {
            1
        } else {
            (count % SEED_MODULUS) as int
        },
        None => 1,
    }
}

/// Folds a count of nanoseconds into a seed.
pub fn seed_from_nanos(nanos: Option<u128>) -> (seed: i64)
    ensures
        seed == seed_spec(nanos),
        1 <= seed < SEED_MODULUS,
{
    match nanos {
        Some(count) => {
            let folded: u128 = count % SEED_MODULUS;
            if folded == 0 {
                1
            } else {
                folded as i64
            }
        },
        None => 1,
    }
}

/// A seed taken from the wall clock: the nanoseconds since the Unix epoch,
/// folded by [`seed_from_nanos`]. A clock that reads a time before the epoch
/// gives the seed one.
pub fn rand_seed() -> (seed: i64)
    ensures
        1 <= seed < SEED_MODULUS,
{
    let reading = wall_clock_now();
    match since_unix_epoch(&reading) {
        Some(span) => seed_from_nanos(Some(whole_nanos(&span))),
        None => seed_from_nanos(None),
    }
}

} // verus!
