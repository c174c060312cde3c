//! How a run goes on from one event to the next.
use crate::arguments::{build_arguments, config_name, Opt};
use crate::artifact::{handle_failed_command, requested_artifact, CommandStatus};
use crate::config::Configs;
use crate::families::{print_families, Family};
use crate::probe::{
    ignored_id_warnings, is_error_of, requested_probe, selected_chip, ProbeRequest,
};
use crate::progress::ProgressPlan;
use crate::report::StatusWord;
use crate::run::{
    flash_plan_of, gdb_address_of, output_texts, region_of, speed_outputs_of, Action, Attempts, Event,
    Failure, FlashPlan, Output, Phase, Run, ScanRegion, Step,
};
use crate::text::{decimal, texts};
use core::num::ParseIntError;
use vstd::prelude::*;

verus! {

/// The steps of a run.
pub type RunStep = Step<
    Run<String, Vec<String>>,
    Vec<Output<String>>,
    Action<String, Vec<String>, ParseIntError>,
>;

fn nothing() -> (outputs: Vec<Output<String>>)
    ensures
        output_texts(outputs@) == Seq::<Output<Seq<char>>>::empty(),
{
    let outputs: Vec<Output<String>> = Vec::new();
    assert(output_texts(outputs@) =~= Seq::empty());
    outputs
}

fn only(output: Output<String>) -> (outputs: Vec<Output<String>>)
    ensures
        output_texts(outputs@) == seq![output@],
{
    let mut outputs: Vec<Output<String>> = Vec::new();
    outputs.push(output);
    assert(output_texts(outputs@) =~= seq![output@]);
    outputs
}

fn tell(outputs: &mut Vec<Output<String>>, output: Output<String>)
    ensures
        output_texts(final(outputs)@) == output_texts(old(outputs)@).push(output@),
{
    let ghost before = output_texts(outputs@);
    outputs.push(output);
    assert(output_texts(outputs@) =~= before.push(output@));
}

/// How to flash under the given options and configuration.
pub fn flash_plan(opt: &Opt, config: &Configs) -> (plan: FlashPlan<String>)
    ensures
        plan@ == flash_plan_of(*opt, *config),
        plan.keep_unwritten_bytes == config.flashing.restore_unwritten_bytes,
        plan.progress is Some <==> !opt.disable_progressbars,
{
    let restore = config.flashing.restore_unwritten_bytes;
    let progress = if opt.disable_progressbars {
        None
    } else {
        Some(
            ProgressPlan {
                fill: restore,
                layout_path: config.flashing.flash_layout_output_path.clone(),
            },
        )
    };
    FlashPlan { keep_unwritten_bytes: restore, progress }
}

/// What to tell about the speed.
pub fn speed_outputs(wanted: Option<u32>, actual: u32) -> (outputs: Vec<Output<String>>)
    ensures
        output_texts(outputs@) == speed_outputs_of(wanted, actual),
{
    let mut outputs = nothing();
    if let Some(speed) = wanted {
        if actual < speed {
            let text = "Unable to use specified speed of ".to_owned().concat(
                decimal(speed as u64).as_str(),
            ).concat(" kHz, actual speed used is ").concat(decimal(actual as u64).as_str()).concat(
                " kHz",
            );
            tell(&mut outputs, Output::Warn(text));
        }
    }
    let text = "Protocol speed ".to_owned().concat(decimal(actual as u64).as_str()).concat(" kHz");
    tell(&mut outputs, Output::Info(text));
    assert(output_texts(outputs@) =~= speed_outputs_of(wanted, actual));
    outputs
}

/// Where GDB is served.
pub fn gdb_address(address: &Option<String>) -> (text: &str)
    ensures
        text@ == gdb_address_of(*address),
{
    match address {
        Some(address) => address.as_str(),
        None => "localhost:1337",
    }
}

/// Where to look for the RTT control block, given the address that the file tells.
pub fn scan_region(address: Option<u64>) -> (region: ScanRegion)
    ensures
        region == region_of(address),
{
    match address {
        Some(address) => ScanRegion::Exact(#[verifier::truncate] (address as u32)),
        None => ScanRegion::Ram,
    }
}

/// The error of a configuration that could not be loaded.
pub fn config_failure(error: &str) -> (message: String)
    ensures
        message@ == "The config could not be loaded: "@ + error@,
{
    "The config could not be loaded: ".to_owned().concat(error)
}

fn printed(lines: Vec<String>) -> (outputs: Vec<Output<String>>)
    ensures
        output_texts(outputs@) == texts(lines@).map_values(|line: Seq<char>| Output::Print(line)),
{
    let mut outputs = nothing();
    let mut i: usize = 0;
    let ghost all = texts(lines@).map_values(|line: Seq<char>| Output::Print(line));
    assert(all.take(0) =~= Seq::empty());
    while i < lines.len()
        invariant
            i <= lines.len(),
            all == texts(lines@).map_values(|line: Seq<char>| Output::Print(line)),
            output_texts(outputs@) == all.take(i as int),
        decreases lines.len() - i,
    {
        tell(&mut outputs, Output::Print(lines[i].clone()));
        assert(all.take(i + 1) =~= all.take(i as int).push(all[i as int]));
        i += 1;
    }
    assert(all.take(i as int) =~= all);
    outputs
}

impl Run<String, Vec<String>> {
    /// A run that has not begun. The tool's name stands first in the arguments.
    pub fn new(opt: Opt, args: Vec<String>, config: Configs) -> (run: Self)
        ensures
            run.opt == opt,
            run.args == args,
            run.config == config,
            run@.path == Seq::<char>::empty(),
            run@.phase == Phase::<Seq<char>>::Ready,
            run@.wf(),
    {
        Run { opt, args, config, path: String::new(), phase: Phase::Ready }
    }

    fn moves(
        self,
        phase: Phase<String>,
        outputs: Vec<Output<String>>,
        action: Action<String, Vec<String>, ParseIntError>,
    ) -> (step: RunStep)
        ensures
            step@ == self@.moves(phase@, output_texts(outputs@), action@),
            step.action == action,
    {
        Step { run: Run { phase, ..self }, outputs, action }
    }

    fn ends(
        self,
        outputs: Vec<Output<String>>,
        action: Action<String, Vec<String>, ParseIntError>,
    ) -> (step: RunStep)
        ensures
            step@ == self@.ends(output_texts(outputs@), action@),
            step.action == action,
    {
        self.moves(Phase::Over, outputs, action)
    }

    fn fails(self, failure: Failure<String, ParseIntError>) -> (step: RunStep)
        ensures
            step@ == self@.fails(failure@),
    {
        self.ends(nothing(), Action::Fail(failure))
    }

    fn describes(self, index: usize) -> (step: RunStep)
        requires
            index <= self.config.general.chip_descriptions@.len(),
            self@.can_describe(index as nat),
        ensures
            step@ == self@.describes(index as nat),
    {
        if index < self.config.general.chip_descriptions.len() {
            let path = self.config.general.chip_descriptions[index].clone();
            self.moves(Phase::Describing(index), nothing(), Action::AddChipDescription(path))
        } else if self.opt.list_chips {
            let heading = only(Output::Print("Available chips:".to_owned()));
            self.moves(Phase::Listing, heading, Action::ListFamilies)
        } else {
            let arguments = build_arguments(&self.args, config_name(&self.opt));
            self.moves(Phase::Building, nothing(), Action::Build(arguments))
        }
    }

    fn finds_probe(self) -> (step: RunStep)
        ensures
            step@ == self@.finds_probe(),
            step.action matches Action::Fail(Failure::VendorId(error)) ==> is_error_of(
                self.config.probe.usb_vid->0@,
                error,
            ),
            step.action matches Action::Fail(Failure::ProductId(error)) ==> is_error_of(
                self.config.probe.usb_pid->0@,
                error,
            ),
    {
        let mut status = only(Output::Status(StatusWord::Flashing, self.path.clone()));
        match requested_probe(&self.config.probe) {
            ProbeRequest::Selected(selector) => self.moves(
                Phase::Opening,
                status,
                Action::OpenProbe(selector),
            ),
            ProbeRequest::InvalidVendorId(error) => self.ends(
                status,
                Action::Fail(Failure::VendorId(error)),
            ),
            ProbeRequest::InvalidProductId(error) => self.ends(
                status,
                Action::Fail(Failure::ProductId(error)),
            ),
            ProbeRequest::Only => {
                let warnings = ignored_id_warnings(&self.config.probe);
                let ghost head = output_texts(status@);
                let ghost all = texts(warnings@).map_values(
                    |warning: Seq<char>| Output::Warn(warning),
                );
                let mut i: usize = 0;
                assert(head + all.take(0) =~= head);
                while i < warnings.len()
                    invariant
                        i <= warnings.len(),
                        all == texts(warnings@).map_values(
                            |warning: Seq<char>| Output::Warn(warning),
                        ),
                        output_texts(status@) == head + all.take(i as int),
                    decreases warnings.len() - i,
                {
                    tell(&mut status, Output::Warn(warnings[i].clone()));
                    assert(head + all.take(i + 1) =~= (head + all.take(i as int)).push(
                        all[i as int],
                    ));
                    i += 1;
                }
                assert(all.take(i as int) =~= all);
                self.moves(Phase::Counting, status, Action::ListProbes)
            },
        }
    }

    fn connects(self) -> (step: RunStep)
        ensures
            step@ == self@.connects(),
    {
        if self.config.gdb.enabled && self.config.rtt.enabled {
            self.fails(
                Failure::Message(
                    "Unfortunately, at the moment, only GDB OR RTT are possible.".to_owned(),
                ),
            )
        } else if self.config.gdb.enabled {
            let address = gdb_address(&self.config.gdb.gdb_connection_string).to_owned();
            let line = "Firing up GDB stub at ".to_owned().concat(address.as_str()).concat(".");
            self.moves(Phase::Serving, only(Output::Print(line)), Action::ServeGdb(address))
        } else if self.config.rtt.enabled {
            self.moves(
                Phase::Timing(Attempts { next: 1, error: None }),
                nothing(),
                Action::ReadClock,
            )
        } else {
            self.ends(nothing(), Action::Finish)
        }
    }

    fn tries(self, attempts: Attempts<String>, elapsed: u128) -> (step: RunStep)
        requires
            attempts.next >= 1,
            (elapsed as usize) < self.config.rtt.timeout ==> attempts.next < i32::MAX,
        ensures
            step@ == self@.tries(attempts@, elapsed),
    {
        let passed: usize = #[verifier::truncate] (elapsed as usize);
        if passed < self.config.rtt.timeout {
            let text = "Initializing RTT (attempt ".to_owned().concat(
                decimal(attempts.next as u64).as_str(),
            ).concat(")...");
            self.moves(
                Phase::Searching(Attempts { next: attempts.next + 1, error: attempts.error }),
                only(Output::Info(text)),
                Action::FindRttSymbol,
            )
        } else {
            match attempts.error {
                Some(error) => self.fails(Failure::Message(error)),
                None => self.ends(nothing(), Action::Finish),
            }
        }
    }

    fn counts(self, probes: usize) -> (step: RunStep)
        ensures
            step@ == self@.counts(probes),
    {
        if probes > 1 {
            self.fails(
                Failure::Message(
                    "More than a single probe detected. Use the --probe-selector argument to select which probe to use.".to_owned(),
                ),
            )
        } else if probes == 0 {
            self.fails(Failure::Message("No supported probe was found".to_owned()))
        } else {
            self.moves(Phase::Opening, nothing(), Action::OpenListedProbe)
        }
    }

    /// Whether the event answers the last action, and the run can go on from it.
    pub fn accepts(&self, event: &Event) -> (accepted: bool)
        requires
            self@.wf(),
        ensures
            accepted == self@.accepts(*event),
    {
        match (&self.phase, event) {
            (Phase::Ready, Event::Start) => self.can_describe(0),
            (Phase::Describing(index), Event::Done(Ok(_))) => {
                assert(*index < self.config.general.chip_descriptions.len());
                self.can_describe(*index + 1)
            },
            (Phase::Describing(_), Event::Done(Err(_))) => true,
            (Phase::Listing, Event::Families(_)) => true,
            (Phase::Building, Event::Built(_)) => true,
            (Phase::Querying, Event::Project(_)) => true,
            (Phase::Locating, Event::Located(_)) => true,
            (Phase::Counting, Event::Probes(_)) => true,
            (Phase::Opening, Event::Done(_)) => true,
            (Phase::Selecting, Event::Done(_)) => true,
            (Phase::Pacing, Event::Speed(Ok(_))) => true,
            (Phase::Pacing, Event::Speed(Err(_))) => self.config.probe.speed.is_some(),
            (Phase::Attaching, Event::Done(_)) => true,
            (Phase::Flashing, Event::Flashed(_)) => true,
            (Phase::Resetting, Event::Done(_)) => true,
            (Phase::Serving, Event::Done(_)) => true,
            (Phase::Timing(attempts), Event::Elapsed(elapsed)) => {
                let passed: usize = #[verifier::truncate] (*elapsed as usize);
                passed >= self.config.rtt.timeout || attempts.next < i32::MAX
            },
            (Phase::Searching(_), Event::Symbol(_)) => true,
            (Phase::Reaching(_), Event::Done(_)) => true,
            (Phase::OpeningTerminal, Event::Done(_)) => true,
            (Phase::Polling, Event::Quit(_)) => true,
            _ => false,
        }
    }

    fn can_describe(&self, index: usize) -> (able: bool)
        ensures
            able == self@.can_describe(index as nat),
    {
        index < self.config.general.chip_descriptions.len() || self.opt.list_chips
            || self.args.len() > 3
    }

    /// What follows from an event that answers the last action. A run that fails because an id of
    /// the probe is not a number fails with the error of reading that id.
    pub fn step(self, event: Event) -> (step: RunStep)
        requires
            self@.wf(),
            self@.accepts(event),
        ensures
            step@ == self@.next(event),
            step.run@.wf(),
            step.action matches Action::Fail(Failure::VendorId(error)) ==> is_error_of(
                self.config.probe.usb_vid->0@,
                error,
            ),
            step.action matches Action::Fail(Failure::ProductId(error)) ==> is_error_of(
                self.config.probe.usb_pid->0@,
                error,
            ),
    {
        let Run { opt, args, config, path, phase } = self;
        let run = Run { opt, args, config, path, phase: Phase::Over };
        match (phase, event) {
            (Phase::Ready, Event::Start) => run.describes(0),
            (Phase::Describing(index), Event::Done(done)) => match done {
                Ok(_) => {
                    assert(index < run.config.general.chip_descriptions.len());
                    run.describes(index + 1)
                },
                Err(_) => {
                    let text = "failed to load the chip description from ".to_owned().concat(
                        run.config.general.chip_descriptions[index].as_str(),
                    );
                    run.fails(Failure::Context(text))
                },
            },
            (Phase::Listing, Event::Families(families)) => run.lists(families),
            (Phase::Building, Event::Built(built)) => run.builds(built),
            (Phase::Querying, Event::Project(project)) => match project {
                Ok(name) => {
                    let request = requested_artifact(&run.opt, name.as_str());
                    run.moves(Phase::Locating, nothing(), Action::LocateArtifact(request))
                },
                Err(error) => run.fails(
                    Failure::Message(
                        "failed to parse Cargo project information: ".to_owned().concat(
                            error.as_str(),
                        ),
                    ),
                ),
            },
            (Phase::Locating, Event::Located(located)) => match located {
                Ok(path) => (Run { path, ..run }).finds_probe(),
                Err(error) => run.fails(
                    Failure::Message(
                        "Couldn't get artifact path: ".to_owned().concat(error.as_str()),
                    ),
                ),
            },
            (Phase::Counting, Event::Probes(probes)) => run.counts(probes),
            (Phase::Opening, Event::Done(done)) => match done {
                Ok(_) => {
                    let protocol = run.config.probe.protocol;
                    run.moves(Phase::Selecting, nothing(), Action::SelectProtocol(protocol))
                },
                Err(_) => run.fails(Failure::Cause),
            },
            (Phase::Selecting, Event::Done(done)) => match done {
                Ok(_) => {
                    let action = match run.config.probe.speed {
                        Some(speed) => Action::SetSpeed(speed),
                        None => Action::ReadSpeed,
                    };
                    run.moves(Phase::Pacing, nothing(), action)
                },
                Err(_) => run.fails(Failure::Context("failed to select protocol".to_owned())),
            },
            (Phase::Pacing, Event::Speed(speed)) => match speed {
                Ok(actual) => {
                    let outputs = speed_outputs(run.config.probe.speed, actual);
                    let chip = selected_chip(&run.config.general.chip);
                    run.moves(Phase::Attaching, outputs, Action::Attach(chip))
                },
                Err(_) => run.fails(Failure::Context("failed to set speed".to_owned())),
            },
            (Phase::Attaching, Event::Done(done)) => match done {
                Ok(_) => if run.config.flashing.enabled {
                    let plan = flash_plan(&run.opt, &run.config);
                    run.moves(Phase::Flashing, nothing(), Action::Flash(plan))
                } else {
                    run.connects()
                },
                Err(_) => run.fails(Failure::Context("failed attaching to target".to_owned())),
            },
            (Phase::Flashing, Event::Flashed(flashed)) => run.flashes(flashed),
            (Phase::Resetting, Event::Done(done)) => match done {
                Ok(_) => run.connects(),
                Err(_) => run.fails(Failure::Cause),
            },
            (Phase::Serving, Event::Done(done)) => run.serves(done),
            (Phase::Timing(attempts), Event::Elapsed(elapsed)) => run.tries(attempts, elapsed),
            (Phase::Searching(attempts), Event::Symbol(address)) => run.moves(
                Phase::Reaching(attempts),
                nothing(),
                Action::AttachRtt(scan_region(address)),
            ),
            (Phase::Reaching(attempts), Event::Done(done)) => run.reaches(attempts, done),
            (Phase::OpeningTerminal, Event::Done(done)) => match done {
                Ok(_) => run.moves(Phase::Polling, nothing(), Action::PollTerminal),
                Err(_) => run.fails(Failure::Cause),
            },
            (Phase::Polling, Event::Quit(quit)) => if quit {
                run.ends(only(Output::Print("Shutting down.".to_owned())), Action::Finish)
            } else {
                run.moves(Phase::Polling, nothing(), Action::PollTerminal)
            },
            _ => run.ends(nothing(), Action::Finish),
        }
    }

    fn lists(self, families: Result<Vec<Family>, String>) -> (step: RunStep)
        ensures
            step@ == (Run { phase: Phase::Listing, ..self@ }).next(Event::Families(families)),
    {
        match families {
            Ok(families) => {
                let outputs = printed(print_families(&families));
                self.ends(outputs, Action::Exit(0))
            },
            Err(error) => self.fails(
                Failure::Message("Families could not be read: ".to_owned().concat(error.as_str())),
            ),
        }
    }

    fn builds(self, built: Result<CommandStatus, String>) -> (step: RunStep)
        ensures
            step@ == (Run { phase: Phase::Building, ..self@ }).next(Event::Built(built)),
    {
        match built {
            Ok(status) => if status.success {
                self.moves(Phase::Querying, nothing(), Action::QueryProject)
            } else {
                self.ends(nothing(), Action::Exit(handle_failed_command(status)))
            },
            Err(_) => self.fails(Failure::Cause),
        }
    }

    fn flashes(self, flashed: Result<String, String>) -> (step: RunStep)
        ensures
            step@ == (Run { phase: Phase::Flashing, ..self@ }).next(Event::Flashed(flashed)),
    {
        match flashed {
            Ok(seconds) => {
                let text = "in ".to_owned().concat(seconds.as_str()).concat("s");
                let action = if self.config.flashing.halt_afterwards {
                    Action::ResetAndHalt(500)
                } else {
                    Action::Reset
                };
                self.moves(
                    Phase::Resetting,
                    only(Output::Status(StatusWord::Finished, text)),
                    action,
                )
            },
            Err(_) => {
                let text = "failed to flash ".to_owned().concat(self.path.as_str());
                self.fails(Failure::Context(text))
            },
        }
    }

    fn serves(self, done: Result<(), String>) -> (step: RunStep)
        ensures
            step@ == (Run { phase: Phase::Serving, ..self@ }).next(Event::Done(done)),
    {
        match done {
            Ok(_) => self.ends(nothing(), Action::Finish),
            Err(error) => {
                let mut outputs = only(
                    Output::PrintError(
                        "During the execution of GDB an error was encountered:".to_owned(),
                    ),
                );
                tell(&mut outputs, Output::PrintError(error));
                assert(output_texts(outputs@) =~= seq![
                    Output::PrintError("During the execution of GDB an error was encountered:"@),
                    Output::PrintError(error@),
                ]);
                self.ends(outputs, Action::Finish)
            },
        }
    }

    fn reaches(self, attempts: Attempts<String>, done: Result<(), String>) -> (step: RunStep)
        requires
            self@.has_name(),
        ensures
            step@ == (Run { phase: Phase::Reaching(attempts@), ..self@ }).next(Event::Done(done)),
    {
        match done {
            Ok(_) => {
                let name = self.args[3].clone();
                self.moves(
                    Phase::OpeningTerminal,
                    only(Output::Info("RTT initialized.".to_owned())),
                    Action::OpenTerminal(name),
                )
            },
            Err(error) => {
                let text = "Error attaching to RTT: ".to_owned().concat(error.as_str());
                self.moves(
                    Phase::Timing(Attempts { next: attempts.next, error: Some(text) }),
                    only(
                        Output::Debug(
                            "Failed to initialize RTT. Retrying until timeout.".to_owned(),
                        ),
                    ),
                    Action::ReadClock,
                )
            },
        }
    }
}

} // verus!
