//! The protocol between the crate and the driver that talks to the GPU.
//!
//! Every operation of an effect is a *script*: a fixed sequence of commands
//! that the driver performs in order, stopping at the first one that fails.
//! The crate holds no hidden state for a running operation. The driver keeps
//! a [`Progress`], shows it to the operation, and gets a [`Step`] back: the
//! next command to perform, or the result of the whole operation.
//!
//! ```text
//! let mut progress = Progress::new();
//! loop {
//!     match glow.blur_pass(&progress) {
//!         Step::Submit(command) => progress.record(perform(command)),
//!         Step::Finished(result) => return result,
//!     }
//! }
//! ```

use crate::pipeline::glow::BlurPassParams;
use crate::shader::input::{Float, TextureId};
use glium::texture::{MipmapsOption, UncompressedFloatFormat};
use vstd::prelude::*;

verus! {

/// A two-dimensional texture as the crate knows it: its name and the
/// parameters it was, or is to be, allocated with.
#[derive(Clone, Copy, Debug, PartialEq, Eq)]
pub struct Texture {
    pub id: TextureId,
    pub format: UncompressedFloatFormat,
    pub mipmaps: MipmapsOption,
    pub width: u32,
    pub height: u32,
}

impl Texture {
    /// Width and height.
    pub open spec fn spec_size(self) -> (u32, u32) {
        (self.width, self.height)
    }

    /// Width and height.
    #[verifier::when_used_as_spec(spec_size)]
    pub fn size(self) -> (size: (u32, u32))
        ensures
            size == self.spec_size(),
    {
        (self.width, self.height)
    }
}

/// A color with its four channels: red, green, blue and opacity.
#[derive(Clone, Copy, Debug, PartialEq, Eq)]
pub struct Color {
    pub red: Float,
    pub green: Float,
    pub blue: Float,
    pub alpha: Float,
}

/// A request to create a GPU resource.
#[derive(Clone, Copy, Debug, PartialEq, Eq)]
pub enum Allocation {
    /// Allocate an empty texture with these parameters and keep it under
    /// `id`. A texture that an earlier operation left under that name stays
    /// in use until the operation that asks for this one has finished well.
    Texture(Texture),
    /// Compile and link the program that blurs along one axis.
    BlurProgram,
    /// Upload the geometry of a quad that covers the whole target.
    ScreenQuad,
}

/// A request to set up, clear or draw into a render target.
#[derive(Clone, Copy, Debug, PartialEq, Eq)]
pub enum DrawCommand {
    /// Make a framebuffer with the texture as its only color attachment.
    FrameBuffer { target: TextureId },
    /// Fill the framebuffer of `target` with one color.
    Clear { target: TextureId, color: Color },
    /// Draw the screen quad through the blur program into the framebuffer of
    /// `target`, with the uniforms of `params` and default draw parameters.
    Blur { target: TextureId, params: BlurPassParams },
}

/// A resource could not be created.
#[derive(Clone, Copy, Debug, PartialEq, Eq)]
pub struct CreationError {
    /// The request that the driver could not meet.
    pub failed: Allocation,
}

/// A framebuffer could not be set up, or a draw into it failed.
#[derive(Clone, Copy, Debug, PartialEq, Eq)]
pub struct DrawError {
    /// The command that the driver could not carry out.
    pub failed: DrawCommand,
}

/// How far the driver has come with the script of one operation.
#[derive(Clone, Copy, Debug, PartialEq, Eq)]
pub struct Progress {
    /// The number of commands, from the start of the script, that succeeded.
    pub completed: u128,
    /// Whether the command after those was tried and failed.
    pub failed: bool,
}

/// What the driver is to do next.
#[derive(Debug, PartialEq, Eq)]
pub enum Step<C, T, E> {
    /// Perform this command and record how it went.
    Submit(C),
    /// The operation is over, with this result.
    Finished(Result<T, E>),
}

impl Progress {
    /// Nothing done yet.
    pub fn new() -> (progress: Progress)
        ensures
            progress == (Progress { completed: 0, failed: false }),
    {
        Progress { completed: 0, failed: false }
    }

    /// The progress after one more command has been tried.
    ///
    /// A failure is final: nothing recorded after it changes the progress.
    /// The count stops at the largest number it can hold, which is more than
    /// any script is long.
    pub open spec fn spec_recorded(self, succeeded: bool) -> Progress {
        if self.failed {
            self
        } else if !succeeded {
            Progress { completed: self.completed, failed: true }
        } else if self.completed < u128::MAX {
            Progress { completed: (self.completed + 1) as u128, failed: false }
        } else {
            self
        }
    }

    /// Records how the command that was last handed out went.
    pub fn record(&mut self, succeeded: bool)
        ensures
            *final(self) == old(self).spec_recorded(succeeded),
    {
        if !self.failed {
            if !succeeded {
                self.failed = true;
            } else if self.completed < u128::MAX {
                self.completed = self.completed + 1;
            }
        }
    }
}

/// The step that follows `progress` in `script`.
///
/// While commands are left and none has failed, it is the next command. Once
/// a command has failed the operation is over with the error that `error`
/// makes of that command; no later command is handed out. When every
/// command has succeeded the operation is over with `done`.
pub open spec fn next_step<C, T, E>(
    script: Seq<C>,
    progress: Progress,
    done: T,
    error: spec_fn(C) -> E,
) -> Step<C, T, E> {
    if progress.completed >= script.len() {
        Step::Finished(Ok(done))
    } else if progress.failed {
        Step::Finished(Err(error(script[progress.completed as int])))
    } else {
        Step::Submit(script[progress.completed as int])
    }
}

/// The step that follows `progress` in a script of allocations. A failed
/// allocation ends the operation with a [`CreationError`] that names it.
pub open spec fn next_allocation<T>(script: Seq<Allocation>, progress: Progress, done: T) -> Step<
    Allocation,
    T,
    CreationError,
> {
    next_step(script, progress, done, |failed: Allocation| CreationError { failed })
}

/// The step that follows `progress` in a script of draw commands. A failed
/// command ends the operation with a [`DrawError`] that names it.
pub open spec fn next_draw(script: Seq<DrawCommand>, progress: Progress) -> Step<
    DrawCommand,
    (),
    DrawError,
> {
    next_step(script, progress, (), |failed: DrawCommand| DrawError { failed })
}

/// Whether a step is the end of an operation that failed.
pub open spec fn failed_step<C, T, E>(step: Step<C, T, E>) -> bool {
    step is Finished && step->Finished_0 is Err
}

impl Progress {
    /// The progress of a driver that started with nothing done and recorded
    /// these outcomes, one after the other.
    pub open spec fn after(outcomes: Seq<bool>) -> Progress
        decreases outcomes.len(),
    {
        if outcomes.len() == 0 {
            Progress { completed: 0, failed: false }
        } else {
            Self::after(outcomes.drop_last()).spec_recorded(outcomes.last())
        }
    }

    /// As long as every command succeeds, the progress counts the commands.
    pub proof fn lemma_after_successes(outcomes: Seq<bool>)
        requires
            outcomes.len() <= u128::MAX,
            forall|i: int| 0 <= i < outcomes.len() ==> outcomes[i],
        ensures
            Self::after(outcomes) == (Progress { completed: outcomes.len() as u128, failed: false }),
        decreases outcomes.len(),
    {
        if outcomes.len() > 0 {
            Self::lemma_after_successes(outcomes.drop_last());
        }
    }

    /// Once a command has failed, the progress stays where that command
    /// stood, whatever is recorded after it.
    pub proof fn lemma_after_failure(outcomes: Seq<bool>, first_failure: int)
        requires
            0 <= first_failure < outcomes.len(),
            first_failure <= u128::MAX,
            !outcomes[first_failure],
            forall|i: int| 0 <= i < first_failure ==> outcomes[i],
        ensures
            Self::after(outcomes) == (Progress { completed: first_failure as u128, failed: true }),
        decreases outcomes.len(),
    {
        if first_failure == outcomes.len() - 1 {
            Self::lemma_after_successes(outcomes.drop_last());
        } else {
            Self::lemma_after_failure(outcomes.drop_last(), first_failure);
        }
    }
}

/// A driver that performs what it is handed and records every command as
/// done is handed the whole script, command by command in order, and after
/// the last command the result `done`.
pub proof fn lemma_run_to_the_end<C, T, E>(
    script: Seq<C>,
    outcomes: Seq<bool>,
    done: T,
    error: spec_fn(C) -> E,
)
    requires
        script.len() <= u128::MAX,
        outcomes.len() <= script.len(),
        forall|i: int| 0 <= i < outcomes.len() ==> outcomes[i],
    ensures
        outcomes.len() < script.len() ==> next_step(script, Progress::after(outcomes), done, error)
            == Step::<C, T, E>::Submit(script[outcomes.len() as int]),
        outcomes.len() == script.len() ==> next_step(
            script,
            Progress::after(outcomes),
            done,
            error,
        ) == Step::<C, T, E>::Finished(Ok(done)),
{
    Progress::lemma_after_successes(outcomes);
}

/// A failure ends the operation at once: the step after it is the error of
/// the command that failed, and so is every step after that. No command
/// that follows the failed one in the script is handed out.
pub proof fn lemma_run_stops_at_failure<C, T, E>(
    script: Seq<C>,
    outcomes: Seq<bool>,
    first_failure: int,
    done: T,
    error: spec_fn(C) -> E,
)
    requires
        script.len() <= u128::MAX,
        0 <= first_failure < outcomes.len(),
        first_failure < script.len(),
        !outcomes[first_failure],
        forall|i: int| 0 <= i < first_failure ==> outcomes[i],
    ensures
        next_step(script, Progress::after(outcomes), done, error) == Step::<
            C,
            T,
            E,
        >::Finished(Err(error(script[first_failure]))),
{
    Progress::lemma_after_failure(outcomes, first_failure);
}

} // verus!
