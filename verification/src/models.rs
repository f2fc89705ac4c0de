//! Controller variants and their bring-up.
//!
//! Every variant is brought up by the same sequence of steps. What differs
//! from one variant to the next is a handful of constants, which the variant
//! supplies through [`Model`]: the kinds of bus it works on, how long it
//! needs to settle, and the vendor registers it wants programmed.
//!
//! A bring-up waits and writes to a bus, which this crate does not do.
//! [`BringUp::init`] and [`BringUp::resume`] decide what is to be done next;
//! the caller does it and reports how it went.
use crate::dcs::{
    BitsPerPixel, DcsCommand, ExitSleepMode, PixelFormat, SetAddressMode, SetDisplayOn,
    SetInvertMode, SetPixelFormat,
};
use crate::error::{ConfigurationError, ModelInitError};
use crate::interface::{Frame, InterfaceKind};
use crate::options::ModelOptions;
use vstd::prelude::*;

pub mod gc9503cv;

pub use gc9503cv::GC9503CV;

verus! {

/// The most vendor registers that a variant may ask to have programmed.
pub const MAX_VENDOR_REGISTERS: usize = 64;

/// The instruction byte of a software reset.
pub const SOFTWARE_RESET: u8 = 0x01;

/// How long a controller needs to settle, in milliseconds: after power-on,
/// after a reset, after leaving sleep, and after the panel is turned on.
#[derive(Debug, Clone, Copy, PartialEq, Eq)]
pub struct SettleDelays {
    pub power_on_ms: u32,
    pub reset_ms: u32,
    pub sleep_out_ms: u32,
    pub display_on_ms: u32,
}

/// One step of a bring-up: a wait of so many milliseconds, or a write of an
/// instruction byte and its parameter bytes.
pub enum Step {
    Delay(u32),
    Write(u8, Seq<u8>),
}

/// A step of a bring-up, handed to the caller to be carried out.
#[derive(Debug, Clone, Copy)]
pub enum Action<'a> {
    /// Wait at least this many milliseconds.
    Delay(u32),
    /// Send this frame.
    Write(Frame<'a>),
}

impl<'a> View for Action<'a> {
    type V = Step;

    open spec fn view(&self) -> Step {
        match *self {
            Action::Delay(ms) => Step::Delay(ms),
            Action::Write(frame) => Step::Write(frame.spec_instruction(), frame.payload()),
        }
    }
}

/// The write that sends the typed command `command`.
pub open spec fn command_write<C: DcsCommand>(command: C) -> Step {
    Step::Write(command.spec_instruction().spec_opcode(), command.params())
}

/// One controller variant: its geometry, its pixel size, and the constants
/// of its bring-up.
pub trait Model {
    /// Whether the variant can be driven through a bus of kind `kind`.
    spec fn spec_supports(&self, kind: InterfaceKind) -> bool;

    /// Width and height of the frame memory, in pixels.
    spec fn spec_framebuffer_size(&self) -> (u16, u16);

    /// The pixel size of the variant's colour format.
    spec fn spec_bits_per_pixel(&self) -> BitsPerPixel;

    /// How long the variant needs to settle.
    spec fn spec_settle_delays(&self) -> SettleDelays;

    /// The vendor registers to program, in order: for each the instruction
    /// byte and the payload.
    spec fn spec_vendor_registers(&self) -> Seq<(u8, Seq<u8>)>;

    /// Whether the variant can be driven through a bus of kind `kind`.
    fn supports(&self, kind: InterfaceKind) -> (supported: bool)
        ensures
            supported == self.spec_supports(kind),
    ;

    /// Width and height of the frame memory, in pixels.
    fn framebuffer_size(&self) -> (size: (u16, u16))
        ensures
            size == self.spec_framebuffer_size(),
    ;

    /// The pixel size of the variant's colour format.
    fn bits_per_pixel(&self) -> (bpp: BitsPerPixel)
        ensures
            bpp == self.spec_bits_per_pixel(),
    ;

    /// How long the variant needs to settle.
    fn settle_delays(&self) -> (delays: SettleDelays)
        ensures
            delays == self.spec_settle_delays(),
    ;

    /// The number of vendor registers to program.
    fn vendor_register_count(&self) -> (count: usize)
        ensures
            count == self.spec_vendor_registers().len(),
            count <= MAX_VENDOR_REGISTERS,
    ;

    /// The raw write that programs vendor register number `index`.
    fn vendor_register(&self, index: usize) -> (frame: Frame<'_>)
        requires
            index < self.spec_vendor_registers().len(),
        ensures
            frame.spec_instruction() == self.spec_vendor_registers()[index as int].0,
            frame.payload() == self.spec_vendor_registers()[index as int].1,
    ;
}

/// How a bring-up starts: wait for power to settle, reset, wait, leave
/// sleep, wait.
pub open spec fn prologue(delays: SettleDelays) -> Seq<Step> {
    seq![
        Step::Delay(delays.power_on_ms),
        Step::Write(SOFTWARE_RESET, Seq::empty()),
        Step::Delay(delays.reset_ms),
        command_write(ExitSleepMode),
        Step::Delay(delays.sleep_out_ms),
    ]
}

/// The raw writes that program `registers`, in order.
pub open spec fn vendor_writes(registers: Seq<(u8, Seq<u8>)>) -> Seq<Step> {
    Seq::new(registers.len(), |i: int| Step::Write(registers[i].0, registers[i].1))
}

/// How a bring-up ends: set the address mode that `options` ask for, set
/// the pixel format, set colour inversion, turn the panel on, wait.
pub open spec fn epilogue(bpp: BitsPerPixel, delays: SettleDelays, options: ModelOptions) -> Seq<
    Step,
> {
    seq![
        command_write(SetAddressMode::spec_from_options(options)),
        command_write(SetPixelFormat(PixelFormat::spec_with_all(bpp))),
        command_write(SetInvertMode(options.invert_colors)),
        command_write(SetDisplayOn),
        Step::Delay(delays.display_on_ms),
    ]
}

/// The steps of the bring-up of `model` with `options`, in order.
pub open spec fn script<M: Model>(model: &M, options: ModelOptions) -> Seq<Step> {
    prologue(model.spec_settle_delays()) + vendor_writes(model.spec_vendor_registers()) + epilogue(
        model.spec_bits_per_pixel(),
        model.spec_settle_delays(),
        options,
    )
}

/// A bring-up that is under way: the step that was handed out last, and the
/// options it runs with.
#[derive(Debug, Clone, Copy, PartialEq, Eq)]
pub struct InitState {
    step: usize,
    options: ModelOptions,
}

impl InitState {
    /// The number of the step that was handed out last, counted from zero.
    pub closed spec fn step(&self) -> nat {
        self.step as nat
    }

    /// The options that the bring-up runs with.
    pub closed spec fn options(&self) -> ModelOptions {
        self.options
    }
}

/// Where a bring-up stands after a call of [`BringUp::init`] or
/// [`BringUp::resume`].
#[derive(Debug)]
pub enum Progress<'a, E> {
    /// `action` is to be carried out, and its outcome reported to
    /// [`BringUp::resume`] together with `state`.
    Pending { state: InitState, action: Action<'a> },
    /// The display is up. This is the address mode that was set.
    Done(SetAddressMode),
    /// The bring-up has failed. The controller is in an unknown state, and
    /// only a bring-up from the start can mend it.
    Failed(ModelInitError<E>),
}

/// Where a bring-up stands, with each action as the step it carries out.
pub enum Stage<E> {
    Pending { step: nat, options: ModelOptions, action: Step },
    Done(SetAddressMode),
    Failed(ModelInitError<E>),
}

impl<'a, E> View for Progress<'a, E> {
    type V = Stage<E>;

    open spec fn view(&self) -> Stage<E> {
        match *self {
            Progress::Pending { state, action } => Stage::Pending {
                step: state.step(),
                options: state.options(),
                action: action@,
            },
            Progress::Done(mode) => Stage::Done(mode),
            Progress::Failed(error) => Stage::Failed(error),
        }
    }
}

/// Where a bring-up of `model` on a bus of kind `kind` stands at its start:
/// turned down where the variant does not work on such a bus, else at the
/// first step of the script.
pub open spec fn spec_init<M: Model, E>(
    model: &M,
    kind: InterfaceKind,
    options: ModelOptions,
) -> Stage<E> {
    if model.spec_supports(kind) {
        Stage::Pending { step: 0, options, action: script(model, options)[0] }
    } else {
        Stage::Failed(
            ModelInitError::InvalidConfiguration(ConfigurationError::UnsupportedInterface),
        )
    }
}

/// Where a bring-up of `model` stands once step number `step` has ended
/// with `outcome`: failed at that step where the bus reported an error, at
/// the next step where the script has one, else done.
pub open spec fn spec_resume<M: Model, E>(
    model: &M,
    options: ModelOptions,
    step: nat,
    outcome: Result<(), E>,
) -> Stage<E> {
    match outcome {
        Err(error) => Stage::Failed(ModelInitError::Interface { step: step as usize, error }),
        Ok(_) => if step + 1 < script(model, options).len() {
            Stage::Pending {
                step: step + 1,
                options,
                action: script(model, options)[step + 1 as int],
            }
        } else {
            Stage::Done(SetAddressMode::spec_from_options(options))
        },
    }
}

/// The script is its three parts laid end to end: five steps, then one for
/// each vendor register, then five more.
pub proof fn lemma_script_parts<M: Model>(model: &M, options: ModelOptions, index: int)
    requires
        0 <= index < script(model, options).len(),
    ensures
        script(model, options).len() == model.spec_vendor_registers().len() + 10,
        index < 5 ==> script(model, options)[index] == prologue(model.spec_settle_delays())[index],
        5 <= index < 5 + model.spec_vendor_registers().len() ==> script(model, options)[index]
            == Step::Write(
            model.spec_vendor_registers()[index - 5].0,
            model.spec_vendor_registers()[index - 5].1,
        ),
        5 + model.spec_vendor_registers().len() <= index ==> script(model, options)[index]
            == epilogue(
            model.spec_bits_per_pixel(),
            model.spec_settle_delays(),
            options,
        )[index - 5 - model.spec_vendor_registers().len()],
{
}

/// Where a bring-up of `model` on a bus of kind `kind` stands once `done` of
/// its steps have been carried out and none has failed.
pub open spec fn stage_after<M: Model, E>(
    model: &M,
    kind: InterfaceKind,
    options: ModelOptions,
    done: nat,
) -> Stage<E>
    decreases done,
{
    if done == 0 {
        spec_init::<M, E>(model, kind, options)
    } else {
        match stage_after::<M, E>(model, kind, options, (done - 1) as nat) {
            Stage::Pending { step, options, .. } => spec_resume::<M, E>(
                model,
                options,
                step,
                Ok(()),
            ),
            ended => ended,
        }
    }
}

/// On a bus that the variant works on, a bring-up in which no step fails
/// hands out the steps of the script one by one, in order, and after the
/// last of them ends with the address mode that the options ask for.
pub proof fn lemma_bring_up_runs_the_script<M: Model, E>(
    model: &M,
    kind: InterfaceKind,
    options: ModelOptions,
    done: nat,
)
    requires
        model.spec_supports(kind),
    ensures
        done < script(model, options).len() ==> stage_after::<M, E>(model, kind, options, done)
            == (Stage::<E>::Pending {
            step: done,
            options,
            action: script(model, options)[done as int],
        }),
        done >= script(model, options).len() ==> stage_after::<M, E>(model, kind, options, done)
            == Stage::<E>::Done(SetAddressMode::spec_from_options(options)),
    decreases done,
{
    if done > 0 {
        lemma_bring_up_runs_the_script::<M, E>(model, kind, options, (done - 1) as nat);
    }
}

/// On a bus that the variant does not work on, a bring-up never gets to a
/// step: it is turned down at the start and stays so, and nothing is handed
/// out to be sent.
pub proof fn lemma_unsupported_bus_sends_nothing<M: Model, E>(
    model: &M,
    kind: InterfaceKind,
    options: ModelOptions,
    done: nat,
)
    requires
        !model.spec_supports(kind),
    ensures
        stage_after::<M, E>(model, kind, options, done) == Stage::<E>::Failed(
            ModelInitError::InvalidConfiguration(ConfigurationError::UnsupportedInterface),
        ),
    decreases done,
{
    if done > 0 {
        lemma_unsupported_bus_sends_nothing::<M, E>(model, kind, options, (done - 1) as nat);
    }
}

/// The last write of every script turns the panel on: it is the step before
/// the last, and the one step behind it is a wait.
pub proof fn lemma_display_on_is_last_write<M: Model>(model: &M, options: ModelOptions)
    ensures
        script(model, options).len() == model.spec_vendor_registers().len() + 10,
        script(model, options)[script(model, options).len() - 2] == Step::Write(
            0x29,
            Seq::empty(),
        ),
        forall|i: int|
            script(model, options).len() - 2 < i < script(model, options).len() ==> script(
                model,
                options,
            )[i] is Delay,
{
    let steps = script(model, options);
    lemma_script_parts(model, options, steps.len() - 2);
    lemma_script_parts(model, options, steps.len() - 1);
}

/// The action that carries out step number `index` of the script.
fn action_at<'a, M: Model>(model: &'a M, options: &ModelOptions, index: usize) -> (action: Action<
    'a,
>)
    requires
        index < script(model, *options).len(),
    ensures
        action@ == script(model, *options)[index as int],
{
    let delays = model.settle_delays();
    let count = model.vendor_register_count();
    proof {
        lemma_script_parts(model, *options, index as int);
    }
    if index < 5 {
        if index == 0 {
            Action::Delay(delays.power_on_ms)
        } else if index == 1 {
            let frame = Frame::raw(SOFTWARE_RESET, &[]);
            assert(frame.payload() =~= Seq::empty());
            Action::Write(frame)
        } else if index == 2 {
            Action::Delay(delays.reset_ms)
        } else if index == 3 {
            Action::Write(Frame::command(&ExitSleepMode).unwrap())
        } else {
            Action::Delay(delays.sleep_out_ms)
        }
    } else if index - 5 < count {
        Action::Write(model.vendor_register(index - 5))
    } else {
        let tail = index - 5 - count;
        if tail == 0 {
            Action::Write(Frame::command(&SetAddressMode::from_options(options)).unwrap())
        } else if tail == 1 {
            let format = PixelFormat::with_all(model.bits_per_pixel());
            Action::Write(Frame::command(&SetPixelFormat::new(format)).unwrap())
        } else if tail == 2 {
            Action::Write(Frame::command(&SetInvertMode::new(options.invert_colors)).unwrap())
        } else if tail == 3 {
            Action::Write(Frame::command(&SetDisplayOn).unwrap())
        } else {
            Action::Delay(delays.display_on_ms)
        }
    }
}

/// The bring-up of a controller variant. It is the same for every variant,
/// so it is written once, over the constants that the variant supplies.
pub trait BringUp: Model + Sized {
    /// Starts the bring-up on a bus of kind `kind`.
    ///
    /// Where the variant does not work on such a bus the bring-up is turned
    /// down at once, before anything is handed out to be sent. Else the
    /// first step of the script is handed out.
    fn init<E>(&self, kind: InterfaceKind, options: &ModelOptions) -> (progress: Progress<'_, E>)
        ensures
            progress@ == spec_init::<Self, E>(self, kind, *options),
            progress is Pending <==> self.spec_supports(kind),
            progress is Failed <==> !self.spec_supports(kind),
    {
        if !self.supports(kind) {
            return Progress::Failed(
                ModelInitError::InvalidConfiguration(ConfigurationError::UnsupportedInterface),
            );
        }
        let action = action_at(self, options, 0);
        Progress::Pending { state: InitState { step: 0, options: *options }, action }
    }

    /// Goes on with the bring-up once the action that was handed out with
    /// `state` has been carried out, with `outcome`.
    ///
    /// An error of the bus ends the bring-up: it comes back as it is, with
    /// the number of the step that failed. Else the next step of the script
    /// is handed out, or, after the last, the address mode that was set.
    fn resume<E>(&self, state: InitState, outcome: Result<(), E>) -> (progress: Progress<'_, E>)
        ensures
            progress@ == spec_resume(self, state.options(), state.step(), outcome),
            progress is Failed <==> outcome is Err,
            progress is Pending <==> outcome is Ok && state.step() + 1 < script(
                self,
                state.options(),
            ).len(),
    {
        match outcome {
            Err(error) => Progress::Failed(ModelInitError::Interface { step: state.step, error }),
            Ok(_) => {
                let count = self.vendor_register_count();
                if state.step < count + 9 {
                    let next = state.step + 1;
                    let action = action_at(self, &state.options, next);
                    Progress::Pending {
                        state: InitState { step: next, options: state.options },
                        action,
                    }
                } else {
                    Progress::Done(SetAddressMode::from_options(&state.options))
                }
            },
        }
    }
}

impl<M: Model> BringUp for M {

}

} // verus!
