//! A run of the tool, from the command line to the end of the session with the target.
//!
//! A run asks for one thing after the other: each [`Action`] is carried out by the program around
//! the library, which hands back what came of it as an [`Event`]. What to do next, what to print
//! and when and how to end is decided here.
use crate::arguments::{build_arguments_of, chosen_config, Opt};
use crate::artifact::{artifact_request_of, exit_code_of, ArtifactRequest, CommandStatus};
use crate::config::{Configs, WireProtocol};
use crate::families::{listing_of, Family};
use crate::probe::{
    chip_of, ignored_ids_of, request_of, ChipSelector, ProbeRequest, ProbeSelector,
};
use crate::progress::ProgressPlan;
use crate::report::StatusWord;
use crate::text::{decimal_text, optional_text, texts};
use core::num::ParseIntError;
use vstd::prelude::*;

verus! {

/// Something to tell the user.
#[derive(Debug, PartialEq, Eq)]
pub enum Output<T> {
    /// A line for the standard output.
    Print(T),
    /// A line for the standard error.
    PrintError(T),
    /// A line that tells how far the run has come.
    Status(StatusWord, T),
    /// A warning in the log.
    Warn(T),
    /// A note in the log.
    Info(T),
    /// A detail in the log.
    Debug(T),
}

/// Why a run failed.
#[derive(Debug, PartialEq, Eq)]
pub enum Failure<T, E> {
    /// For this reason.
    Message(T),
    /// Because of the error that the last action gave, under this heading.
    Context(T),
    /// Because of the error that the last action gave.
    Cause,
    /// The vendor id of the probe is not a number.
    VendorId(E),
    /// The product id of the probe is not a number.
    ProductId(E),
}

/// Where to look for the RTT control block on the target.
#[derive(Debug, Clone, Copy, PartialEq, Eq, Structural)]
pub enum ScanRegion {
    /// At this address.
    Exact(u32),
    /// In all of its memory.
    Ram,
}

/// How to flash.
#[derive(Debug, PartialEq, Eq)]
pub struct FlashPlan<T> {
    /// Whether bytes of an erased sector that the file does not set are written back.
    pub keep_unwritten_bytes: bool,
    /// The progress bars, unless there are to be none.
    pub progress: Option<ProgressPlan<T>>,
}

/// What to do next. `T` is a text, `L` a list of texts, `E` the error of a text that is no number.
#[derive(Debug, PartialEq, Eq)]
pub enum Action<T, L, E> {
    /// Add the chips that a file describes to the known ones.
    AddChipDescription(T),
    /// List the families of the known chips.
    ListFamilies,
    /// Run `cargo build` with these arguments.
    Build(L),
    /// Find out about the Cargo project in the working directory.
    QueryProject,
    /// Find a file of the build.
    LocateArtifact(ArtifactRequest<T>),
    /// Open the probe with these ids.
    OpenProbe(ProbeSelector<T>),
    /// Count the probes.
    ListProbes,
    /// Open the first of the probes that were counted.
    OpenListedProbe,
    /// Make the probe speak a protocol.
    SelectProtocol(WireProtocol),
    /// Set the speed of the protocol, in kHz.
    SetSpeed(u32),
    /// Find out the speed of the protocol.
    ReadSpeed,
    /// Attach the probe to the chip.
    Attach(ChipSelector<T>),
    /// Write the file to the target's flash.
    Flash(FlashPlan<T>),
    /// Reset the first core and halt it, within so many milliseconds.
    ResetAndHalt(u64),
    /// Reset the first core.
    Reset,
    /// Serve GDB at this address.
    ServeGdb(T),
    /// Tell how long ago the clock was first read in this run.
    ReadClock,
    /// Find the address of the RTT control block in the file.
    FindRttSymbol,
    /// Attach to the target's RTT channels.
    AttachRtt(ScanRegion),
    /// Open the terminal for the session of this name.
    OpenTerminal(T),
    /// Move the terminal's input and output along once.
    PollTerminal,
    /// End well.
    Finish,
    /// End with this code.
    Exit(i32),
    /// End with an error.
    Fail(Failure<T, E>),
}

/// What came of an action. An error is given by its text.
#[derive(Debug)]
pub enum Event {
    /// Nothing has been done yet.
    Start,
    /// The action was carried out, or failed.
    Done(Result<(), String>),
    /// The families of the known chips.
    Families(Result<Vec<Family>, String>),
    /// How the build ended, if it could be started.
    Built(Result<CommandStatus, String>),
    /// The name of the Cargo project.
    Project(Result<String, String>),
    /// The path of the file.
    Located(Result<String, String>),
    /// The number of probes.
    Probes(usize),
    /// The speed of the protocol, in kHz.
    Speed(Result<u32, String>),
    /// The time that flashing took, in seconds.
    Flashed(Result<String, String>),
    /// The time that has passed, in milliseconds.
    Elapsed(u128),
    /// The address of the RTT control block, if the file tells it.
    Symbol(Option<u64>),
    /// Whether the user has left the terminal.
    Quit(bool),
}

/// The attempts to reach the target's RTT channels.
#[derive(Debug, PartialEq, Eq)]
pub struct Attempts<T> {
    /// The number of the next one.
    pub next: i32,
    /// Why the last one failed, if there was one.
    pub error: Option<T>,
}

/// What a run waits for.
#[derive(Debug, PartialEq, Eq)]
pub enum Phase<T> {
    /// The beginning.
    Ready,
    /// The chips of the description with this number.
    Describing(usize),
    /// The families of the known chips.
    Listing,
    /// The end of the build.
    Building,
    /// The project.
    Querying,
    /// The path of the file.
    Locating,
    /// The number of probes.
    Counting,
    /// The probe.
    Opening,
    /// The protocol.
    Selecting,
    /// The speed.
    Pacing,
    /// The connection between probe and chip.
    Attaching,
    /// The end of flashing.
    Flashing,
    /// The reset.
    Resetting,
    /// The end of the GDB server.
    Serving,
    /// The time, before the next attempt.
    Timing(Attempts<T>),
    /// The address of the RTT control block.
    Searching(Attempts<T>),
    /// The RTT channels.
    Reaching(Attempts<T>),
    /// The terminal.
    OpeningTerminal,
    /// The user.
    Polling,
    /// Nothing any more.
    Over,
}

/// A run: what was asked for, and how far it has come.
#[derive(Debug)]
pub struct Run<T, L> {
    pub opt: Opt,
    /// The arguments, the tool's name first.
    pub args: L,
    pub config: Configs,
    /// The path of the file, once it is known.
    pub path: T,
    pub phase: Phase<T>,
}

/// A run after one more event, what to tell the user, and what to do next.
#[derive(Debug)]
pub struct Step<R, O, A> {
    pub run: R,
    pub outputs: O,
    pub action: A,
}

/// A run in terms of texts.
pub type RunModel = Run<Seq<char>, Seq<Seq<char>>>;

/// An action in terms of texts.
pub type ActionModel = Action<Seq<char>, Seq<Seq<char>>, ()>;

/// A step in terms of texts.
pub type StepModel = Step<RunModel, Seq<Output<Seq<char>>>, ActionModel>;

impl View for Output<String> {
    type V = Output<Seq<char>>;

    open spec fn view(&self) -> Output<Seq<char>> {
        match self {
            Output::Print(text) => Output::Print(text@),
            Output::PrintError(text) => Output::PrintError(text@),
            Output::Status(word, text) => Output::Status(*word, text@),
            Output::Warn(text) => Output::Warn(text@),
            Output::Info(text) => Output::Info(text@),
            Output::Debug(text) => Output::Debug(text@),
        }
    }
}

impl View for Failure<String, ParseIntError> {
    type V = Failure<Seq<char>, ()>;

    open spec fn view(&self) -> Failure<Seq<char>, ()> {
        match self {
            Failure::Message(text) => Failure::Message(text@),
            Failure::Context(text) => Failure::Context(text@),
            Failure::Cause => Failure::Cause,
            Failure::VendorId(_) => Failure::VendorId(()),
            Failure::ProductId(_) => Failure::ProductId(()),
        }
    }
}

impl View for FlashPlan<String> {
    type V = FlashPlan<Seq<char>>;

    open spec fn view(&self) -> FlashPlan<Seq<char>> {
        FlashPlan {
            keep_unwritten_bytes: self.keep_unwritten_bytes,
            progress: match self.progress {
                Some(plan) => Some(
                    ProgressPlan { fill: plan.fill, layout_path: optional_text(plan.layout_path) },
                ),
                None => None,
            },
        }
    }
}

impl View for Action<String, Vec<String>, ParseIntError> {
    type V = ActionModel;

    open spec fn view(&self) -> ActionModel {
        match self {
            Action::AddChipDescription(path) => Action::AddChipDescription(path@),
            Action::ListFamilies => Action::ListFamilies,
            Action::Build(arguments) => Action::Build(texts(arguments@)),
            Action::QueryProject => Action::QueryProject,
            Action::LocateArtifact(request) => Action::LocateArtifact(request@),
            Action::OpenProbe(selector) => Action::OpenProbe(selector@),
            Action::ListProbes => Action::ListProbes,
            Action::OpenListedProbe => Action::OpenListedProbe,
            Action::SelectProtocol(protocol) => Action::SelectProtocol(*protocol),
            Action::SetSpeed(speed) => Action::SetSpeed(*speed),
            Action::ReadSpeed => Action::ReadSpeed,
            Action::Attach(chip) => Action::Attach(chip@),
            Action::Flash(plan) => Action::Flash(plan@),
            Action::ResetAndHalt(timeout) => Action::ResetAndHalt(*timeout),
            Action::Reset => Action::Reset,
            Action::ServeGdb(address) => Action::ServeGdb(address@),
            Action::ReadClock => Action::ReadClock,
            Action::FindRttSymbol => Action::FindRttSymbol,
            Action::AttachRtt(region) => Action::AttachRtt(*region),
            Action::OpenTerminal(name) => Action::OpenTerminal(name@),
            Action::PollTerminal => Action::PollTerminal,
            Action::Finish => Action::Finish,
            Action::Exit(code) => Action::Exit(*code),
            Action::Fail(failure) => Action::Fail(failure@),
        }
    }
}

impl View for Attempts<String> {
    type V = Attempts<Seq<char>>;

    open spec fn view(&self) -> Attempts<Seq<char>> {
        Attempts { next: self.next, error: optional_text(self.error) }
    }
}

impl View for Phase<String> {
    type V = Phase<Seq<char>>;

    open spec fn view(&self) -> Phase<Seq<char>> {
        match self {
            Phase::Ready => Phase::Ready,
            Phase::Describing(index) => Phase::Describing(*index),
            Phase::Listing => Phase::Listing,
            Phase::Building => Phase::Building,
            Phase::Querying => Phase::Querying,
            Phase::Locating => Phase::Locating,
            Phase::Counting => Phase::Counting,
            Phase::Opening => Phase::Opening,
            Phase::Selecting => Phase::Selecting,
            Phase::Pacing => Phase::Pacing,
            Phase::Attaching => Phase::Attaching,
            Phase::Flashing => Phase::Flashing,
            Phase::Resetting => Phase::Resetting,
            Phase::Serving => Phase::Serving,
            Phase::Timing(attempts) => Phase::Timing(attempts@),
            Phase::Searching(attempts) => Phase::Searching(attempts@),
            Phase::Reaching(attempts) => Phase::Reaching(attempts@),
            Phase::OpeningTerminal => Phase::OpeningTerminal,
            Phase::Polling => Phase::Polling,
            Phase::Over => Phase::Over,
        }
    }
}

impl View for Run<String, Vec<String>> {
    type V = RunModel;

    open spec fn view(&self) -> RunModel {
        Run {
            opt: self.opt,
            args: texts(self.args@),
            config: self.config,
            path: self.path@,
            phase: self.phase@,
        }
    }
}

/// The outputs in terms of texts.
pub open spec fn output_texts(outputs: Seq<Output<String>>) -> Seq<Output<Seq<char>>> {
    outputs.map_values(|output: Output<String>| output@)
}

impl View for Step<
    Run<String, Vec<String>>,
    Vec<Output<String>>,
    Action<String, Vec<String>, ParseIntError>,
> {
    type V = StepModel;

    open spec fn view(&self) -> StepModel {
        Step {
            run: self.run@,
            outputs: output_texts(self.outputs@),
            action: self.action@,
        }
    }
}

/// How to flash under the given options and configuration.
pub open spec fn flash_plan_of(opt: Opt, config: Configs) -> FlashPlan<Seq<char>> {
    FlashPlan {
        keep_unwritten_bytes: config.flashing.restore_unwritten_bytes,
        progress: if opt.disable_progressbars {
            None
        } else {
            Some(
                ProgressPlan {
                    fill: config.flashing.restore_unwritten_bytes,
                    layout_path: optional_text(config.flashing.flash_layout_output_path),
                },
            )
        },
    }
}

/// What to tell about the speed: a warning if less than was asked for came out, and the speed.
pub open spec fn speed_outputs_of(wanted: Option<u32>, actual: u32) -> Seq<Output<Seq<char>>> {
    (match wanted {
        Some(speed) => if actual < speed {
            seq![
                Output::Warn(
                    "Unable to use specified speed of "@ + decimal_text(speed as nat)
                        + " kHz, actual speed used is "@ + decimal_text(actual as nat) + " kHz"@,
                ),
            ]
        } else {
            Seq::empty()
        },
        None => Seq::empty(),
    }) + seq![Output::Info("Protocol speed "@ + decimal_text(actual as nat) + " kHz"@)]
}

/// Where GDB is served.
pub open spec fn gdb_address_of(address: Option<String>) -> Seq<char> {
    match address {
        Some(address) => address@,
        None => "localhost:1337"@,
    }
}

/// Where to look for the RTT control block, given the address that the file tells.
pub open spec fn region_of(address: Option<u64>) -> ScanRegion {
    match address {
        Some(address) => ScanRegion::Exact(address as u32),
        None => ScanRegion::Ram,
    }
}

impl Run<Seq<char>, Seq<Seq<char>>> {
    /// The run waits for something else.
    pub open spec fn moves(
        self,
        phase: Phase<Seq<char>>,
        outputs: Seq<Output<Seq<char>>>,
        action: ActionModel,
    ) -> StepModel {
        Step { run: Run { phase, ..self }, outputs, action }
    }

    /// The run is over.
    pub open spec fn ends(
        self,
        outputs: Seq<Output<Seq<char>>>,
        action: ActionModel,
    ) -> StepModel {
        self.moves(Phase::Over, outputs, action)
    }

    /// The run is over, with an error and nothing else to tell.
    pub open spec fn fails(self, failure: Failure<Seq<char>, ()>) -> StepModel {
        self.ends(Seq::empty(), Action::Fail(failure))
    }

    /// The chip descriptions before the one with the given number are known: the next one comes,
    /// and after the last one the list of chips or the build.
    pub open spec fn describes(self, index: nat) -> StepModel {
        let descriptions = texts(self.config.general.chip_descriptions@);
        if index < descriptions.len() {
            self.moves(
                Phase::Describing(index as usize),
                Seq::empty(),
                Action::AddChipDescription(descriptions[index as int]),
            )
        } else if self.opt.list_chips {
            self.moves(
                Phase::Listing,
                seq![Output::Print("Available chips:"@)],
                Action::ListFamilies,
            )
        } else {
            self.moves(
                Phase::Building,
                Seq::empty(),
                Action::Build(build_arguments_of(self.args, chosen_config(self.opt))),
            )
        }
    }

    /// The path of the file is known: the probe is opened, or looked for.
    pub open spec fn finds_probe(self) -> StepModel {
        let status = seq![Output::Status(StatusWord::Flashing, self.path)];
        match request_of(self.config.probe) {
            ProbeRequest::Selected(selector) => self.moves(
                Phase::Opening,
                status,
                Action::OpenProbe(selector),
            ),
            ProbeRequest::InvalidVendorId(error) => self.ends(
                status,
                Action::Fail(Failure::VendorId(error)),
            ),
            ProbeRequest::InvalidProductId(error) => self.ends(
                status,
                Action::Fail(Failure::ProductId(error)),
            ),
            ProbeRequest::Only => self.moves(
                Phase::Counting,
                status + ignored_ids_of(self.config.probe).map_values(
                    |warning: Seq<char>| Output::Warn(warning),
                ),
                Action::ListProbes,
            ),
        }
    }

    /// The target is ready: GDB is served or the terminal is opened, but never both.
    pub open spec fn connects(self) -> StepModel {
        if self.config.gdb.enabled && self.config.rtt.enabled {
            self.fails(
                Failure::Message("Unfortunately, at the moment, only GDB OR RTT are possible."@),
            )
        } else if self.config.gdb.enabled {
            let address = gdb_address_of(self.config.gdb.gdb_connection_string);
            self.moves(
                Phase::Serving,
                seq![Output::Print("Firing up GDB stub at "@ + address + "."@)],
                Action::ServeGdb(address),
            )
        } else if self.config.rtt.enabled {
            self.moves(
                Phase::Timing(Attempts { next: 1, error: None }),
                Seq::empty(),
                Action::ReadClock,
            )
        } else {
            self.ends(Seq::empty(), Action::Finish)
        }
    }

    /// The time is known: while some is left there is another attempt, and after that the run ends
    /// with what the last attempt failed with.
    pub open spec fn tries(self, attempts: Attempts<Seq<char>>, elapsed: u128) -> StepModel {
        if (elapsed as usize) < self.config.rtt.timeout {
            self.moves(
                Phase::Searching(
                    Attempts { next: (attempts.next + 1) as i32, error: attempts.error },
                ),
                seq![
                    Output::Info(
                        "Initializing RTT (attempt "@ + decimal_text(attempts.next as nat)
                            + ")..."@,
                    ),
                ],
                Action::FindRttSymbol,
            )
        } else {
            match attempts.error {
                Some(error) => self.fails(Failure::Message(error)),
                None => self.ends(Seq::empty(), Action::Finish),
            }
        }
    }

    /// The number of probes is known: there has to be exactly one.
    pub open spec fn counts(self, probes: usize) -> StepModel {
        if probes > 1 {
            self.fails(
                Failure::Message(
                    "More than a single probe detected. Use the --probe-selector argument to select which probe to use."@,
                ),
            )
        } else if probes == 0 {
            self.fails(Failure::Message("No supported probe was found"@))
        } else {
            self.moves(Phase::Opening, Seq::empty(), Action::OpenListedProbe)
        }
    }

    /// What follows from an event that answers the last action.
    pub open spec fn next(self, event: Event) -> StepModel {
        match (self.phase, event) {
            (Phase::Ready, Event::Start) => self.describes(0),
            (Phase::Describing(index), Event::Done(Ok(_))) => self.describes((index + 1) as nat),
            (Phase::Describing(index), Event::Done(Err(_))) => self.fails(
                Failure::Context(
                    "failed to load the chip description from "@
                        + self.config.general.chip_descriptions@[index as int]@,
                ),
            ),
            (Phase::Listing, Event::Families(Ok(families))) => self.ends(
                listing_of(families@).map_values(|line: Seq<char>| Output::Print(line)),
                Action::Exit(0),
            ),
            (Phase::Listing, Event::Families(Err(error))) => self.fails(
                Failure::Message("Families could not be read: "@ + error@),
            ),
            (Phase::Building, Event::Built(Ok(status))) => if status.success {
                self.moves(Phase::Querying, Seq::empty(), Action::QueryProject)
            } else {
                self.ends(Seq::empty(), Action::Exit(exit_code_of(status)))
            },
            (Phase::Building, Event::Built(Err(_))) => self.fails(Failure::Cause),
            (Phase::Querying, Event::Project(Ok(name))) => self.moves(
                Phase::Locating,
                Seq::empty(),
                Action::LocateArtifact(artifact_request_of(self.opt, name@)),
            ),
            (Phase::Querying, Event::Project(Err(error))) => self.fails(
                Failure::Message("failed to parse Cargo project information: "@ + error@),
            ),
            (Phase::Locating, Event::Located(Ok(path))) => (Run {
                path: path@,
                ..self
            }).finds_probe(),
            (Phase::Locating, Event::Located(Err(error))) => self.fails(
                Failure::Message("Couldn't get artifact path: "@ + error@),
            ),
            (Phase::Counting, Event::Probes(probes)) => self.counts(probes),
            (Phase::Opening, Event::Done(Ok(_))) => self.moves(
                Phase::Selecting,
                Seq::empty(),
                Action::SelectProtocol(self.config.probe.protocol),
            ),
            (Phase::Opening, Event::Done(Err(_))) => self.fails(Failure::Cause),
            (Phase::Selecting, Event::Done(Ok(_))) => self.moves(
                Phase::Pacing,
                Seq::empty(),
                match self.config.probe.speed {
                    Some(speed) => Action::SetSpeed(speed),
                    None => Action::ReadSpeed,
                },
            ),
            (Phase::Selecting, Event::Done(Err(_))) => self.fails(
                Failure::Context("failed to select protocol"@),
            ),
            (Phase::Pacing, Event::Speed(Ok(actual))) => self.moves(
                Phase::Attaching,
                speed_outputs_of(self.config.probe.speed, actual),
                Action::Attach(chip_of(self.config.general.chip)),
            ),
            (Phase::Pacing, Event::Speed(Err(_))) => self.fails(
                Failure::Context("failed to set speed"@),
            ),
            (Phase::Attaching, Event::Done(Ok(_))) => if self.config.flashing.enabled {
                self.moves(
                    Phase::Flashing,
                    Seq::empty(),
                    Action::Flash(flash_plan_of(self.opt, self.config)),
                )
            } else {
                self.connects()
            },
            (Phase::Attaching, Event::Done(Err(_))) => self.fails(
                Failure::Context("failed attaching to target"@),
            ),
            (Phase::Flashing, Event::Flashed(Ok(seconds))) => self.moves(
                Phase::Resetting,
                seq![Output::Status(StatusWord::Finished, "in "@ + seconds@ + "s"@)],
                if self.config.flashing.halt_afterwards {
                    Action::ResetAndHalt(500)
                } else {
                    Action::Reset
                },
            ),
            (Phase::Flashing, Event::Flashed(Err(_))) => self.fails(
                Failure::Context("failed to flash "@ + self.path),
            ),
            (Phase::Resetting, Event::Done(Ok(_))) => self.connects(),
            (Phase::Resetting, Event::Done(Err(_))) => self.fails(Failure::Cause),
            (Phase::Serving, Event::Done(Ok(_))) => self.ends(Seq::empty(), Action::Finish),
            (Phase::Serving, Event::Done(Err(error))) => self.ends(
                seq![
                    Output::PrintError(
                        "During the execution of GDB an error was encountered:"@,
                    ),
                    Output::PrintError(error@),
                ],
                Action::Finish,
            ),
            (Phase::Timing(attempts), Event::Elapsed(elapsed)) => self.tries(attempts, elapsed),
            (Phase::Searching(attempts), Event::Symbol(address)) => self.moves(
                Phase::Reaching(attempts),
                Seq::empty(),
                Action::AttachRtt(region_of(address)),
            ),
            (Phase::Reaching(_), Event::Done(Ok(_))) => self.moves(
                Phase::OpeningTerminal,
                seq![Output::Info("RTT initialized."@)],
                Action::OpenTerminal(self.args[3]),
            ),
            (Phase::Reaching(attempts), Event::Done(Err(error))) => self.moves(
                Phase::Timing(
                    Attempts {
                        next: attempts.next,
                        error: Some("Error attaching to RTT: "@ + error@),
                    },
                ),
                seq![Output::Debug("Failed to initialize RTT. Retrying until timeout."@)],
                Action::ReadClock,
            ),
            (Phase::OpeningTerminal, Event::Done(Ok(_))) => self.moves(
                Phase::Polling,
                Seq::empty(),
                Action::PollTerminal,
            ),
            (Phase::OpeningTerminal, Event::Done(Err(_))) => self.fails(Failure::Cause),
            (Phase::Polling, Event::Quit(true)) => self.ends(
                seq![Output::Print("Shutting down."@)],
                Action::Finish,
            ),
            (Phase::Polling, Event::Quit(false)) => self.moves(
                Phase::Polling,
                Seq::empty(),
                Action::PollTerminal,
            ),
            _ => self.ends(Seq::empty(), Action::Finish),
        }
    }

    /// Whether there are enough arguments for one to name the session by. A run that builds needs
    /// that many.
    pub open spec fn has_name(self) -> bool {
        self.args.len() > 3
    }

    /// Whether the run is in order: a chip description that is waited for exists, a run that has
    /// come to the build has a name, and attempts are counted from 1 and leave an error behind.
    pub open spec fn wf(self) -> bool {
        match self.phase {
            Phase::Ready => true,
            Phase::Describing(index) => index < self.config.general.chip_descriptions@.len(),
            Phase::Listing => true,
            Phase::Timing(attempts) => {
                &&& self.has_name()
                &&& attempts.next >= 1
                &&& attempts.error is Some <==> attempts.next > 1
            },
            Phase::Searching(attempts) | Phase::Reaching(attempts) => {
                &&& self.has_name()
                &&& attempts.next >= 2
                &&& attempts.error is Some <==> attempts.next > 2
            },
            Phase::Over => true,
            _ => self.has_name(),
        }
    }

    /// Whether the run can go on from the chip descriptions before the one with the given number.
    pub open spec fn can_describe(self, index: nat) -> bool {
        index < self.config.general.chip_descriptions@.len() || self.opt.list_chips
            || self.has_name()
    }

    /// Whether the event answers the last action, and the run can go on from it.
    pub open spec fn accepts(self, event: Event) -> bool {
        match (self.phase, event) {
            (Phase::Ready, Event::Start) => self.can_describe(0),
            (Phase::Describing(index), Event::Done(Ok(_))) => self.can_describe((index + 1) as nat),
            (Phase::Describing(_), Event::Done(Err(_))) => true,
            (Phase::Listing, Event::Families(_)) => true,
            (Phase::Building, Event::Built(_)) => true,
            (Phase::Querying, Event::Project(_)) => true,
            (Phase::Locating, Event::Located(_)) => true,
            (Phase::Counting, Event::Probes(_)) => true,
            (Phase::Opening, Event::Done(_)) => true,
            (Phase::Selecting, Event::Done(_)) => true,
            (Phase::Pacing, Event::Speed(Ok(_))) => true,
            (Phase::Pacing, Event::Speed(Err(_))) => self.config.probe.speed is Some,
            (Phase::Attaching, Event::Done(_)) => true,
            (Phase::Flashing, Event::Flashed(_)) => true,
            (Phase::Resetting, Event::Done(_)) => true,
            (Phase::Serving, Event::Done(_)) => true,
            (Phase::Timing(attempts), Event::Elapsed(elapsed)) => {
                (elapsed as usize) < self.config.rtt.timeout ==> attempts.next < i32::MAX
            },
            (Phase::Searching(_), Event::Symbol(_)) => true,
            (Phase::Reaching(_), Event::Done(_)) => true,
            (Phase::OpeningTerminal, Event::Done(_)) => true,
            (Phase::Polling, Event::Quit(_)) => true,
            _ => false,
        }
    }
}

} // verus!
