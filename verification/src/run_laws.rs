//! What holds of every run.
use crate::arguments::build_arguments_of;
use crate::artifact::{artifact_request_of, CommandStatus};
use crate::families::{listing_of, Family};
use crate::probe::{ignored_ids_of, request_of, ChipSelector, ProbeRequest};
use crate::report::StatusWord;
use crate::run::{
    region_of, Action, ActionModel, Attempts, Event, Failure, Output, Phase, RunModel, ScanRegion,
};
use crate::text::decimal_text;
use vstd::prelude::*;

verus! {

/// The run after a series of events.
pub open spec fn replay(run: RunModel, events: Seq<Event>) -> RunModel
    decreases events.len(),
{
    if events.len() == 0 {
        run
    } else {
        replay(run, events.drop_last()).next(events.last()).run
    }
}

/// Whether each event of a series answers the action before it, and the run can go on from it.
pub open spec fn accepted(run: RunModel, events: Seq<Event>) -> bool
    decreases events.len(),
{
    events.len() == 0 || (accepted(run, events.drop_last()) && replay(
        run,
        events.drop_last(),
    ).accepts(events.last()))
}

/// The actions that a series of events leads to, one for each.
pub open spec fn actions_of(run: RunModel, events: Seq<Event>) -> Seq<ActionModel>
    decreases events.len(),
{
    if events.len() == 0 {
        Seq::empty()
    } else {
        actions_of(run, events.drop_last()).push(
            replay(run, events.drop_last()).next(events.last()).action,
        )
    }
}

/// Whether an action has to do with a probe or with what is attached to it.
pub open spec fn touches_probe(action: ActionModel) -> bool {
    match action {
        Action::OpenProbe(_) => true,
        Action::ListProbes => true,
        Action::OpenListedProbe => true,
        Action::SelectProtocol(_) => true,
        Action::SetSpeed(_) => true,
        Action::ReadSpeed => true,
        Action::Attach(_) => true,
        Action::Flash(_) => true,
        Action::ResetAndHalt(_) => true,
        Action::Reset => true,
        Action::ServeGdb(_) => true,
        Action::AttachRtt(_) => true,
        Action::OpenTerminal(_) => true,
        Action::PollTerminal => true,
        _ => false,
    }
}

/// Whether an action belongs to the terminal.
pub open spec fn is_for_terminal(action: ActionModel) -> bool {
    match action {
        Action::ReadClock => true,
        Action::FindRttSymbol => true,
        Action::AttachRtt(_) => true,
        Action::OpenTerminal(_) => true,
        Action::PollTerminal => true,
        _ => false,
    }
}

/// Whether an action ends the run.
pub open spec fn is_end(action: ActionModel) -> bool {
    match action {
        Action::Finish => true,
        Action::Exit(_) => true,
        Action::Fail(_) => true,
        _ => false,
    }
}

/// Whether an event tells of a build that succeeded.
pub open spec fn is_built(event: Event) -> bool {
    event matches Event::Built(Ok(status)) && status.success
}

/// Whether an event tells of an error.
pub open spec fn is_error(event: Event) -> bool {
    match event {
        Event::Done(Err(_)) => true,
        Event::Families(Err(_)) => true,
        Event::Built(Err(_)) => true,
        Event::Project(Err(_)) => true,
        Event::Located(Err(_)) => true,
        Event::Speed(Err(_)) => true,
        Event::Flashed(Err(_)) => true,
        _ => false,
    }
}

/// How many of the phases of a run lie behind it.
pub open spec fn stage(phase: Phase<Seq<char>>) -> nat {
    match phase {
        Phase::Ready => 0,
        Phase::Describing(_) => 1,
        Phase::Listing => 2,
        Phase::Building => 2,
        Phase::Querying => 3,
        Phase::Locating => 4,
        Phase::Counting => 5,
        Phase::Opening => 6,
        Phase::Selecting => 7,
        Phase::Pacing => 8,
        Phase::Attaching => 9,
        Phase::Flashing => 10,
        Phase::Resetting => 11,
        Phase::Serving => 12,
        Phase::Timing(_) => 12,
        Phase::Searching(_) => 12,
        Phase::Reaching(_) => 12,
        Phase::OpeningTerminal => 13,
        Phase::Polling => 14,
        Phase::Over => 15,
    }
}

/// How far a run has come within a phase that repeats: the chip descriptions that lie behind it, or
/// the steps of the attempts to reach the RTT channels.
pub open spec fn round(phase: Phase<Seq<char>>) -> int {
    match phase {
        Phase::Describing(index) => index as int,
        Phase::Timing(attempts) => 3 * attempts.next,
        Phase::Searching(attempts) => 3 * attempts.next - 2,
        Phase::Reaching(attempts) => 3 * attempts.next - 1,
        _ => 0,
    }
}

/// Every event moves a run forward, but for one that leaves it waiting for the user. So a run comes
/// to its end, or to the terminal, unless attempts to reach the RTT channels go on.
pub proof fn law_runs_move_forward(run: RunModel, event: Event)
    requires
        run.wf(),
        run.accepts(event),
    ensures
        ({
            let after = run.next(event).run.phase;
            ||| stage(after) > stage(run.phase)
            ||| stage(after) == stage(run.phase) && round(after) > round(run.phase)
            ||| run.phase is Polling && event == Event::Quit(false)
        }),
{
    let count = run.config.general.chip_descriptions.len();
    assert(count <= usize::MAX);
}

/// A run is over exactly when it has been told to end, and then there is nothing it goes on from.
pub proof fn law_the_end_is_final(run: RunModel, event: Event, later: Event)
    requires
        run.wf(),
        run.accepts(event),
    ensures
        run.next(event).run.phase is Over <==> is_end(run.next(event).action),
        run.next(event).run.phase is Over ==> !run.next(event).run.accepts(later),
{
}

/// A run never changes what was asked for.
pub proof fn law_the_request_stays(run: RunModel, events: Seq<Event>)
    ensures
        replay(run, events).opt == run.opt,
        replay(run, events).args == run.args,
        replay(run, events).config == run.config,
    decreases events.len(),
{
    if events.len() > 0 {
        law_the_request_stays(run, events.drop_last());
    }
}

/// Every run stays in order.
pub proof fn law_runs_stay_in_order(run: RunModel, events: Seq<Event>)
    requires
        run.wf(),
        accepted(run, events),
    ensures
        replay(run, events).wf(),
    decreases events.len(),
{
    if events.len() > 0 {
        law_runs_stay_in_order(run, events.drop_last());
        law_steps_stay_in_order(replay(run, events.drop_last()), events.last());
    }
}

/// A run begins in order, and every event that it goes on from leaves it in order.
pub proof fn law_steps_stay_in_order(run: RunModel, event: Event)
    ensures
        run.phase is Ready ==> run.wf(),
        run.wf() && run.accepts(event) ==> run.next(event).run.wf(),
{
}

/// An error ends the run with a failure, with two exceptions: one of the GDB server is only told,
/// and one of an attempt to reach the RTT channels leads back to the clock.
pub proof fn law_errors_end_the_run(run: RunModel, event: Event)
    requires
        run.wf(),
        run.accepts(event),
        is_error(event),
    ensures
        match run.phase {
            Phase::Serving => run.next(event).action == ActionModel::Finish,
            Phase::Reaching(_) => run.next(event).action == ActionModel::ReadClock,
            _ => run.next(event).action is Fail,
        },
{
}

/// What a run knows of the events behind it, by the phase that it has come to.
spec fn remembers(run: RunModel, events: Seq<Event>) -> bool {
    let phase = replay(run, events).phase;
    &&& 3 <= stage(phase) < 15 ==> exists|i: int| 0 <= i < events.len() && is_built(#[trigger] events[i])
    &&& 10 <= stage(phase) <= 11 ==> run.config.flashing.enabled
    &&& phase is Serving ==> run.config.gdb.enabled && !run.config.rtt.enabled
    &&& 12 <= stage(phase) < 15 && !(phase is Serving) ==> run.config.rtt.enabled
        && !run.config.gdb.enabled
    &&& run.opt.list_chips ==> phase is Ready || phase is Describing || phase is Listing
        || phase is Over
    &&& phase is Listing ==> run.opt.list_chips
}

proof fn lemma_remembers(run: RunModel, events: Seq<Event>)
    requires
        run.phase is Ready,
        accepted(run, events),
    ensures
        remembers(run, events),
    decreases events.len(),
{
    if events.len() > 0 {
        let before = events.drop_last();
        let event = events.last();
        lemma_remembers(run, before);
        law_the_request_stays(run, before);
        let at = replay(run, before);
        if 3 <= stage(at.next(event).run.phase) < 15 {
            if at.phase is Building {
                assert(is_built(events[events.len() - 1]));
            } else {
                let i = choose|i: int| 0 <= i < before.len() && is_built(#[trigger] before[i]);
                assert(is_built(events[i]));
            }
        }
    }
}

proof fn lemma_last_action(run: RunModel, events: Seq<Event>, i: int)
    requires
        accepted(run, events),
        0 <= i < events.len(),
    ensures
        actions_of(run, events).len() == events.len(),
        accepted(run, events.take(i)),
        replay(run, events.take(i)).accepts(events[i]),
        actions_of(run, events)[i] == replay(run, events.take(i)).next(events[i]).action,
    decreases events.len(),
{
    let before = events.drop_last();
    if i < before.len() {
        lemma_last_action(run, before, i);
        assert(before.take(i) =~= events.take(i));
    } else {
        assert(events.take(i) =~= before);
        lemma_action_count(run, before);
    }
}

proof fn lemma_action_count(run: RunModel, events: Seq<Event>)
    ensures
        actions_of(run, events).len() == events.len(),
    decreases events.len(),
{
    if events.len() > 0 {
        lemma_action_count(run, events.drop_last());
    }
}

/// Nothing is done with a probe before a build has succeeded.
pub proof fn law_the_build_comes_first(run: RunModel, events: Seq<Event>, i: int)
    requires
        run.phase is Ready,
        accepted(run, events),
        0 <= i < actions_of(run, events).len(),
        touches_probe(actions_of(run, events)[i]),
    ensures
        exists|j: int| 0 <= j <= i && is_built(#[trigger] events[j]),
{
    lemma_action_count(run, events);
    lemma_last_action(run, events, i);
    lemma_remembers(run, events.take(i));
    let at = replay(run, events.take(i));
    law_the_request_stays(run, events.take(i));
    assert(3 <= stage(at.phase) < 15);
    let j = choose|j: int| 0 <= j < i && is_built(#[trigger] events.take(i)[j]);
    assert(is_built(events[j]));
}

/// The target is flashed and reset only where flashing is on.
pub proof fn law_flashing_can_be_turned_off(run: RunModel, events: Seq<Event>, i: int)
    requires
        run.phase is Ready,
        accepted(run, events),
        0 <= i < actions_of(run, events).len(),
        !run.config.flashing.enabled,
    ensures
        ({
            let action = actions_of(run, events)[i];
            !(action is Flash) && !(action is ResetAndHalt) && !(action is Reset)
        }),
{
    lemma_action_count(run, events);
    lemma_last_action(run, events, i);
    lemma_remembers(run, events.take(i));
    law_the_request_stays(run, events.take(i));
}

/// GDB is served only where it alone is on, and the terminal is opened only where it alone is on:
/// no run does both.
pub proof fn law_gdb_and_terminal_exclude_each_other(run: RunModel, events: Seq<Event>, i: int)
    requires
        run.phase is Ready,
        accepted(run, events),
        0 <= i < actions_of(run, events).len(),
    ensures
        actions_of(run, events)[i] is ServeGdb ==> run.config.gdb.enabled
            && !run.config.rtt.enabled,
        is_for_terminal(actions_of(run, events)[i]) ==> run.config.rtt.enabled
            && !run.config.gdb.enabled,
{
    lemma_action_count(run, events);
    lemma_last_action(run, events, i);
    lemma_remembers(run, events.take(i));
    law_the_request_stays(run, events.take(i));
}

/// A run that lists the chips builds nothing and touches no probe.
pub proof fn law_listing_only_lists(run: RunModel, events: Seq<Event>, i: int)
    requires
        run.phase is Ready,
        run.opt.list_chips,
        accepted(run, events),
        0 <= i < actions_of(run, events).len(),
    ensures
        !(actions_of(run, events)[i] is Build),
        !touches_probe(actions_of(run, events)[i]),
{
    lemma_action_count(run, events);
    lemma_last_action(run, events, i);
    lemma_remembers(run, events.take(i));
    law_the_request_stays(run, events.take(i));
}

/// A probe that nobody selected is opened only where it is the only one.
pub proof fn law_only_a_single_probe_is_chosen(run: RunModel, events: Seq<Event>, i: int)
    requires
        run.phase is Ready,
        accepted(run, events),
        0 <= i < actions_of(run, events).len(),
        actions_of(run, events)[i] is OpenListedProbe,
    ensures
        events[i] == Event::Probes(1),
{
    lemma_action_count(run, events);
    lemma_last_action(run, events, i);
}

/// The chip descriptions come first, each in its turn; a run that does otherwise has failed.
pub proof fn law_descriptions_come_first(run: RunModel, events: Seq<Event>, i: int)
    requires
        run.phase is Ready,
        accepted(run, events),
        0 <= i < events.len(),
        i < run.config.general.chip_descriptions@.len(),
    ensures
        actions_of(run, events)[i] is Fail || actions_of(run, events)[i]
            == ActionModel::AddChipDescription(run.config.general.chip_descriptions@[i]@),
{
    lemma_last_action(run, events, i);
    law_the_request_stays(run, events.take(i));
    lemma_describing(run, events.take(i));
    assert(run.config.general.chip_descriptions.len() <= usize::MAX);
}

proof fn lemma_describing(run: RunModel, events: Seq<Event>)
    requires
        run.phase is Ready,
        accepted(run, events),
        events.len() <= run.config.general.chip_descriptions@.len(),
    ensures
        events.len() > 0 ==> (replay(run, events).phase is Over || replay(run, events).phase
            == Phase::<Seq<char>>::Describing((events.len() - 1) as usize)),
    decreases events.len(),
{
    assert(run.config.general.chip_descriptions.len() <= usize::MAX);
    if events.len() > 0 {
        lemma_describing(run, events.drop_last());
        law_the_request_stays(run, events.drop_last());
    }
}

/// When the time for reaching the RTT channels is up, the run fails with what the last attempt
/// failed with, unless the time was too short for a single attempt.
pub proof fn law_running_out_of_time(run: RunModel, elapsed: u128)
    requires
        run.wf(),
        run.phase is Timing,
        elapsed as usize >= run.config.rtt.timeout,
    ensures
        ({
            let attempts = run.phase->Timing_0;
            let action = run.next(Event::Elapsed(elapsed)).action;
            &&& attempts.next == 1 ==> action == ActionModel::Finish
            &&& attempts.next > 1 ==> action == ActionModel::Fail(
                Failure::Message(attempts.error->0),
            )
        }),
{
}

/// An attempt to reach the RTT channels that fails as the time runs out is what the run fails with.
pub proof fn law_the_last_attempt_is_reported(run: RunModel, error: String, elapsed: u128)
    requires
        run.wf(),
        run.phase is Reaching,
        elapsed as usize >= run.config.rtt.timeout,
    ensures
        run.next(Event::Done(Err(error))).run.next(Event::Elapsed(elapsed)).action
            == ActionModel::Fail(Failure::Message("Error attaching to RTT: "@ + error@)),
{
}

/// After each action the run waits for what comes of that action, and after the last for nothing.
pub proof fn law_runs_wait_for_what_they_asked(run: RunModel, event: Event)
    requires
        run.wf(),
        run.accepts(event),
    ensures
        ({
            let step = run.next(event);
            match step.action {
                Action::AddChipDescription(_) => step.run.phase is Describing,
                Action::ListFamilies => step.run.phase is Listing,
                Action::Build(_) => step.run.phase is Building,
                Action::QueryProject => step.run.phase is Querying,
                Action::LocateArtifact(_) => step.run.phase is Locating,
                Action::OpenProbe(_) => step.run.phase is Opening,
                Action::ListProbes => step.run.phase is Counting,
                Action::OpenListedProbe => step.run.phase is Opening,
                Action::SelectProtocol(_) => step.run.phase is Selecting,
                Action::SetSpeed(_) => step.run.phase is Pacing,
                Action::ReadSpeed => step.run.phase is Pacing,
                Action::Attach(_) => step.run.phase is Attaching,
                Action::Flash(_) => step.run.phase is Flashing,
                Action::ResetAndHalt(_) => step.run.phase is Resetting,
                Action::Reset => step.run.phase is Resetting,
                Action::ServeGdb(_) => step.run.phase is Serving,
                Action::ReadClock => step.run.phase is Timing,
                Action::FindRttSymbol => step.run.phase is Searching,
                Action::AttachRtt(_) => step.run.phase is Reaching,
                Action::OpenTerminal(_) => step.run.phase is OpeningTerminal,
                Action::PollTerminal => step.run.phase is Polling,
                Action::Finish => step.run.phase is Over,
                Action::Exit(_) => step.run.phase is Over,
                Action::Fail(_) => step.run.phase is Over,
            }
        }),
{
}

/// A run takes every answer to what it asked for, and nothing else. There are four limits: a build
/// needs a fourth argument to name the session by, the speed can only fail to be set, attempts are
/// counted in 32 bits, and a run that is over takes nothing.
pub proof fn law_runs_take_every_answer(run: RunModel, event: Event)
    requires
        run.wf(),
    ensures
        ({
            let answered = match run.phase {
                Phase::Ready => event is Start,
                Phase::Describing(_) => event is Done,
                Phase::Listing => event is Families,
                Phase::Building => event is Built,
                Phase::Querying => event is Project,
                Phase::Locating => event is Located,
                Phase::Counting => event is Probes,
                Phase::Opening => event is Done,
                Phase::Selecting => event is Done,
                Phase::Pacing => event is Speed,
                Phase::Attaching => event is Done,
                Phase::Flashing => event is Flashed,
                Phase::Resetting => event is Done,
                Phase::Serving => event is Done,
                Phase::Timing(_) => event is Elapsed,
                Phase::Searching(_) => event is Symbol,
                Phase::Reaching(_) => event is Done,
                Phase::OpeningTerminal => event is Done,
                Phase::Polling => event is Quit,
                Phase::Over => false,
            };
            let within_limits = {
                &&& run.args.len() > 3 || run.opt.list_chips
                &&& event matches Event::Speed(Err(_)) ==> run.config.probe.speed is Some
                &&& run.phase matches Phase::Timing(attempts) ==> attempts.next < i32::MAX
            };
            &&& run.accepts(event) ==> answered
            &&& answered && within_limits ==> run.accepts(event)
        }),
        run.accepts(event) && run.next(event).action is Build ==> run.args.len() > 3,
{
}

/// Where all is well so far, the next chip description is added; after the last one the chips are
/// listed where that is asked for, and else the project is built.
pub proof fn law_the_build_follows_the_descriptions(run: RunModel, event: Event, known: nat)
    requires
        run.wf(),
        run.accepts(event),
        (run.phase is Ready && known == 0) || (run.phase matches Phase::Describing(index) && known
            == index + 1 && event == Event::Done(Ok(()))),
    ensures
        ({
            let step = run.next(event);
            let paths = run.config.general.chip_descriptions@;
            &&& step.action is AddChipDescription <==> known < paths.len()
            &&& step.action matches Action::AddChipDescription(path) ==> {
                &&& path == paths[known as int]@
                &&& step.run.phase matches Phase::Describing(index) && index == known
                &&& step.outputs.len() == 0
            }
            &&& step.action is ListFamilies <==> known >= paths.len() && run.opt.list_chips
            &&& step.action is ListFamilies ==> step.outputs == seq![
                Output::Print("Available chips:"@),
            ]
            &&& step.action is Build <==> known >= paths.len() && !run.opt.list_chips
            &&& step.action matches Action::Build(arguments) ==> {
                &&& run.opt.config matches Some(name) ==> arguments == build_arguments_of(
                    run.args,
                    name@,
                )
                &&& run.opt.config is None ==> arguments == build_arguments_of(
                    run.args,
                    "default"@,
                )
                &&& step.outputs.len() == 0
            }
        }),
{
    assert(run.config.general.chip_descriptions.len() <= usize::MAX);
}

/// A list of the chips prints every line on them, and the run ends well.
pub proof fn law_the_list_is_printed(run: RunModel, families: Vec<Family>, i: int)
    requires
        run.phase is Listing,
        0 <= i < listing_of(families@).len(),
    ensures
        ({
            let step = run.next(Event::Families(Ok(families)));
            &&& step.action == ActionModel::Exit(0)
            &&& step.outputs.len() == listing_of(families@).len()
            &&& step.outputs[i] == Output::Print(listing_of(families@)[i])
        }),
{
}

/// A list of no chips prints nothing below its heading, and the run ends well all the same.
pub proof fn law_the_list_may_be_empty(run: RunModel, families: Vec<Family>)
    requires
        run.phase is Listing,
        listing_of(families@).len() == 0,
    ensures
        run.next(Event::Families(Ok(families))).action == ActionModel::Exit(0),
        run.next(Event::Families(Ok(families))).outputs.len() == 0,
{
}

/// The run goes on from a build exactly where it succeeded, and else ends with the build's own code,
/// or the signal that ended it, or 1.
pub proof fn law_the_build_decides(run: RunModel, status: CommandStatus)
    requires
        run.phase is Building,
    ensures
        ({
            let step = run.next(Event::Built(Ok(status)));
            &&& step.outputs.len() == 0
            &&& step.action is QueryProject <==> status.success
            &&& !status.success ==> step.action == ActionModel::Exit(
                match status.code {
                    Some(code) => code,
                    None => match status.signal {
                        Some(signal) => signal,
                        None => 1,
                    },
                },
            )
        }),
{
}

/// Once the project is known, the file that was asked for is looked for. The file that is found is
/// the one that the user is told of and that the run keeps.
pub proof fn law_the_file_is_found(run: RunModel, name: String)
    ensures
        run.phase is Querying ==> {
            let step = run.next(Event::Project(Ok(name)));
            &&& step.action == ActionModel::LocateArtifact(artifact_request_of(run.opt, name@))
            &&& step.outputs.len() == 0
        },
        run.phase is Locating ==> {
            let step = run.next(Event::Located(Ok(name)));
            &&& step.run.path == name@
            &&& step.outputs.len() > 0
            &&& step.outputs[0] == Output::Status(StatusWord::Flashing, name@)
        },
{
}

/// Only finding the file changes which file a run keeps.
pub proof fn law_the_file_stays(run: RunModel, event: Event)
    requires
        !(event matches Event::Located(Ok(_))),
    ensures
        run.next(event).run.path == run.path,
{
}

/// The probe that the configuration selects is opened. Where an id is not a number the run fails
/// with that; where none is selected the probes are counted, after a warning about an id that is
/// ignored.
pub proof fn law_the_selected_probe_is_opened(run: RunModel, path: String, i: int)
    requires
        run.phase is Locating,
    ensures
        ({
            let step = run.next(Event::Located(Ok(path)));
            let ignored = ignored_ids_of(run.config.probe);
            match request_of(run.config.probe) {
                ProbeRequest::Selected(selector) => step.action == ActionModel::OpenProbe(selector)
                    && step.outputs.len() == 1,
                ProbeRequest::InvalidVendorId(_) => step.action == ActionModel::Fail(
                    Failure::VendorId(()),
                ) && step.outputs.len() == 1,
                ProbeRequest::InvalidProductId(_) => step.action == ActionModel::Fail(
                    Failure::ProductId(()),
                ) && step.outputs.len() == 1,
                ProbeRequest::Only => {
                    &&& step.action == ActionModel::ListProbes
                    &&& step.outputs.len() == 1 + ignored.len()
                    &&& 0 <= i < ignored.len() ==> step.outputs[1 + i] == Output::Warn(ignored[i])
                },
            }
        }),
{
}

/// A single probe is opened, and any other number of them is an error that tells what to do.
pub proof fn law_a_single_probe_is_opened(run: RunModel, probes: usize)
    requires
        run.phase is Counting,
    ensures
        ({
            let step = run.next(Event::Probes(probes));
            &&& step.outputs.len() == 0
            &&& step.action is OpenListedProbe <==> probes == 1
            &&& probes == 0 ==> step.action == ActionModel::Fail(
                Failure::Message("No supported probe was found"@),
            )
            &&& probes > 1 ==> step.action == ActionModel::Fail(
                Failure::Message(
                    "More than a single probe detected. Use the --probe-selector argument to select which probe to use."@,
                ),
            )
        }),
{
}

/// An open probe is made to speak the protocol of the configuration, and then at its speed where
/// there is one, whatever else is configured.
pub proof fn law_the_probe_is_set_up(run: RunModel)
    ensures
        run.phase is Opening ==> {
            let step = run.next(Event::Done(Ok(())));
            &&& step.action == ActionModel::SelectProtocol(run.config.probe.protocol)
            &&& step.outputs.len() == 0
        },
        run.phase is Selecting ==> {
            let step = run.next(Event::Done(Ok(())));
            &&& run.config.probe.speed matches Some(speed) ==> step.action
                == ActionModel::SetSpeed(speed)
            &&& run.config.probe.speed is None ==> step.action == ActionModel::ReadSpeed
            &&& step.outputs.len() == 0
        },
{
}

/// Whatever speed came out, the probe is attached to the chip of the configuration. The user is told
/// the speed, and warned first exactly where it is lower than what was asked for.
pub proof fn law_the_chip_is_attached(run: RunModel, actual: u32)
    requires
        run.phase is Pacing,
    ensures
        ({
            let step = run.next(Event::Speed(Ok(actual)));
            let slower = run.config.probe.speed matches Some(wanted) && actual < wanted;
            &&& run.config.general.chip matches Some(name) ==> step.action == ActionModel::Attach(
                ChipSelector::Named(name@),
            )
            &&& run.config.general.chip is None ==> step.action == ActionModel::Attach(
                ChipSelector::Auto,
            )
            &&& step.outputs.len() == (if slower {
                2int
            } else {
                1
            })
            &&& step.outputs.last() == Output::Info(
                "Protocol speed "@ + decimal_text(actual as nat) + " kHz"@,
            )
            &&& slower ==> step.outputs[0] == Output::Warn(
                "Unable to use specified speed of "@ + decimal_text(
                    run.config.probe.speed->0 as nat,
                ) + " kHz, actual speed used is "@ + decimal_text(actual as nat) + " kHz"@,
            )
        }),
{
}

/// An attached target is flashed exactly where flashing is on. Unwritten bytes are kept exactly
/// where the configuration says so, and there are progress bars exactly where they were not turned
/// off: the one for reading where bytes are kept, and the picture where it is configured.
pub proof fn law_the_target_is_flashed(run: RunModel)
    requires
        run.phase is Attaching,
    ensures
        ({
            let step = run.next(Event::Done(Ok(())));
            &&& step.action is Flash <==> run.config.flashing.enabled
            &&& step.action matches Action::Flash(plan) ==> {
                &&& step.outputs.len() == 0
                &&& plan.keep_unwritten_bytes == run.config.flashing.restore_unwritten_bytes
                &&& plan.progress is None <==> run.opt.disable_progressbars
                &&& plan.progress matches Some(bars) ==> {
                    &&& bars.fill == run.config.flashing.restore_unwritten_bytes
                    &&& bars.layout_path is Some
                        <==> run.config.flashing.flash_layout_output_path is Some
                    &&& run.config.flashing.flash_layout_output_path matches Some(path)
                        ==> bars.layout_path == Some(path@)
                }
            }
        }),
{
}

/// In every run, whatever flashes keeps unwritten bytes exactly where the configuration says so, and
/// shows bars exactly where they were not turned off.
pub proof fn law_every_flash_keeps_what_is_asked(run: RunModel, events: Seq<Event>, i: int)
    requires
        run.phase is Ready,
        accepted(run, events),
        0 <= i < actions_of(run, events).len(),
    ensures
        actions_of(run, events)[i] matches Action::Flash(plan) ==> {
            &&& run.config.flashing.enabled
            &&& plan.keep_unwritten_bytes == run.config.flashing.restore_unwritten_bytes
            &&& plan.progress is Some <==> !run.opt.disable_progressbars
        },
{
    lemma_action_count(run, events);
    lemma_last_action(run, events, i);
    lemma_remembers(run, events.take(i));
    law_the_request_stays(run, events.take(i));
}

/// A flashed target is reset, and halted within half a second exactly where the configuration says
/// so; the user is told how long flashing took.
pub proof fn law_a_flashed_target_is_reset(run: RunModel, seconds: String)
    requires
        run.phase is Flashing,
    ensures
        ({
            let step = run.next(Event::Flashed(Ok(seconds)));
            &&& run.config.flashing.halt_afterwards ==> step.action == ActionModel::ResetAndHalt(
                500,
            )
            &&& !run.config.flashing.halt_afterwards ==> step.action == ActionModel::Reset
            &&& step.outputs == seq![
                Output::Status(StatusWord::Finished, "in "@ + seconds@ + "s"@),
            ]
        }),
{
}

/// A target that was reset after flashing, or that is attached and not to be flashed, is put to use:
/// GDB is served exactly where it alone is on, the way to the terminal begins exactly where it alone
/// is on, both together are an error, and the run ends only where neither is on.
pub proof fn law_the_session_begins(run: RunModel)
    requires
        run.phase is Resetting || (run.phase is Attaching && !run.config.flashing.enabled),
    ensures
        ({
            let step = run.next(Event::Done(Ok(())));
            let gdb = run.config.gdb.enabled;
            let rtt = run.config.rtt.enabled;
            &&& step.action is ServeGdb <==> gdb && !rtt
            &&& step.action matches Action::ServeGdb(address) ==> {
                &&& run.config.gdb.gdb_connection_string matches Some(configured) ==> address
                    == configured@
                &&& run.config.gdb.gdb_connection_string is None ==> address == "localhost:1337"@
                &&& step.outputs == seq![
                    Output::Print("Firing up GDB stub at "@ + address + "."@),
                ]
            }
            &&& step.action is ReadClock <==> rtt && !gdb
            &&& step.action is ReadClock ==> {
                &&& step.run.phase matches Phase::Timing(attempts) && attempts.next == 1
                    && attempts.error is None
                &&& step.outputs.len() == 0
            }
            &&& step.action is Fail <==> gdb && rtt
            &&& step.action is Fail ==> step.outputs.len() == 0 && step.action == ActionModel::Fail(
                Failure::Message("Unfortunately, at the moment, only GDB OR RTT are possible."@),
            )
            &&& step.action is Finish <==> !gdb && !rtt
            &&& step.action is Finish ==> step.outputs.len() == 0
        }),
{
}

/// Flashing makes no difference to what the target is used for: from its reset a run goes on as one
/// with flashing off does from attaching.
pub proof fn law_flashing_changes_no_session(flashed: RunModel, plain: RunModel)
    requires
        flashed.phase is Resetting,
        plain.phase is Attaching,
        !plain.config.flashing.enabled,
        plain.config.gdb == flashed.config.gdb,
        plain.config.rtt == flashed.config.rtt,
    ensures
        flashed.next(Event::Done(Ok(()))).action == plain.next(Event::Done(Ok(()))).action,
        flashed.next(Event::Done(Ok(()))).outputs == plain.next(Event::Done(Ok(()))).outputs,
        flashed.next(Event::Done(Ok(()))).run.phase == plain.next(Event::Done(Ok(()))).run.phase,
{
}

/// The end of the GDB server is the end of the run, which ends well. An error is told before that.
pub proof fn law_gdb_ends_the_run(run: RunModel, error: String)
    requires
        run.phase is Serving,
    ensures
        run.next(Event::Done(Ok(()))).action == ActionModel::Finish,
        run.next(Event::Done(Ok(()))).outputs.len() == 0,
        run.next(Event::Done(Err(error))).action == ActionModel::Finish,
        run.next(Event::Done(Err(error))).outputs == seq![
            Output::PrintError("During the execution of GDB an error was encountered:"@),
            Output::PrintError(error@),
        ],
{
}

/// As long as time is left there is another attempt to reach the RTT channels, however many there
/// have been. Its number is told, and what the last one failed with is kept.
pub proof fn law_attempts_go_on_until_the_time_is_up(run: RunModel, elapsed: u128)
    requires
        run.wf(),
        run.phase is Timing,
        (elapsed as usize) < run.config.rtt.timeout,
        run.accepts(Event::Elapsed(elapsed)),
    ensures
        ({
            let attempts = run.phase->Timing_0;
            let step = run.next(Event::Elapsed(elapsed));
            &&& step.action == ActionModel::FindRttSymbol
            &&& step.run.phase == Phase::Searching(
                Attempts { next: (attempts.next + 1) as i32, error: attempts.error },
            )
            &&& step.outputs == seq![
                Output::Info(
                    "Initializing RTT (attempt "@ + decimal_text(attempts.next as nat) + ")..."@,
                ),
            ]
        }),
{
}

/// The time alone decides whether there is another attempt: neither the number of attempts nor what
/// they failed with does.
pub proof fn law_only_the_time_ends_the_attempts(run: RunModel, other: RunModel, elapsed: u128)
    requires
        run.phase is Timing,
        other.phase is Timing,
        run.config.rtt.timeout == other.config.rtt.timeout,
    ensures
        run.next(Event::Elapsed(elapsed)).action is FindRttSymbol <==> other.next(
            Event::Elapsed(elapsed),
        ).action is FindRttSymbol,
        run.next(Event::Elapsed(elapsed)).action is FindRttSymbol <==> (elapsed as usize)
            < run.config.rtt.timeout,
{
}

/// An attempt looks where the file says, in the lower 32 bits of what it says, and in all of the
/// memory where it says nothing.
pub proof fn law_attempts_look_where_the_file_says(run: RunModel, address: u64)
    requires
        run.phase is Searching,
    ensures
        run.next(Event::Symbol(None)).action == ActionModel::AttachRtt(ScanRegion::Ram),
        run.next(Event::Symbol(Some(address))).action matches Action::AttachRtt(region)
            && region matches ScanRegion::Exact(at) && at == address % 0x1_0000_0000,
        run.next(Event::Symbol(None)).run.phase == Phase::Reaching(run.phase->Searching_0),
        run.next(Event::Symbol(Some(address))).run.phase == Phase::Reaching(
            run.phase->Searching_0,
        ),
        run.next(Event::Symbol(None)).outputs.len() == 0,
        run.next(Event::Symbol(Some(address))).outputs.len() == 0,
{
    assert(address as u32 == address % 0x1_0000_0000) by (bit_vector);
    assert(region_of(Some(address)) == ScanRegion::Exact(address as u32));
}

/// An attempt that fails is kept as the last one and leads back to the clock; one that succeeds opens
/// the terminal for the session, which is named by the fourth argument.
pub proof fn law_an_attempt_opens_the_terminal_or_is_repeated(run: RunModel, error: String)
    requires
        run.wf(),
        run.phase is Reaching,
    ensures
        ({
            let step = run.next(Event::Done(Err(error)));
            &&& step.action == ActionModel::ReadClock
            &&& step.run.phase == Phase::Timing(
                Attempts {
                    next: run.phase->Reaching_0.next,
                    error: Some("Error attaching to RTT: "@ + error@),
                },
            )
            &&& step.outputs == seq![
                Output::Debug("Failed to initialize RTT. Retrying until timeout."@),
            ]
        }),
        ({
            let step = run.next(Event::Done(Ok(())));
            &&& step.action == ActionModel::OpenTerminal(run.args[3])
            &&& step.outputs == seq![Output::Info("RTT initialized."@)]
        }),
{
}

/// The terminal is kept going until the user leaves it, and then the run ends well.
pub proof fn law_the_user_ends_the_terminal(run: RunModel)
    ensures
        run.phase is OpeningTerminal ==> run.next(Event::Done(Ok(()))).action
            == ActionModel::PollTerminal && run.next(Event::Done(Ok(()))).outputs.len() == 0,
        run.phase is Polling ==> {
            let stay = run.next(Event::Quit(false));
            let leave = run.next(Event::Quit(true));
            &&& stay.action == ActionModel::PollTerminal
            &&& stay.outputs.len() == 0
            &&& leave.action == ActionModel::Finish
            &&& leave.outputs == seq![Output::Print("Shutting down."@)]
        },
{
}

/// An action that fails makes the run fail with the error that belongs to it, and with nothing else
/// to tell. (What the GDB server and the attempts to reach the RTT channels fail with is no failure
/// of the run.)
pub proof fn law_failures_tell_what_failed(run: RunModel, event: Event, error: String)
    requires
        run.wf(),
        run.accepts(event),
        match event {
            Event::Done(Err(e)) => e == error,
            Event::Families(Err(e)) => e == error,
            Event::Built(Err(e)) => e == error,
            Event::Project(Err(e)) => e == error,
            Event::Located(Err(e)) => e == error,
            Event::Speed(Err(e)) => e == error,
            Event::Flashed(Err(e)) => e == error,
            _ => false,
        },
        !(run.phase is Serving),
        !(run.phase is Reaching),
    ensures
        run.next(event).outputs.len() == 0,
        run.next(event).action == ActionModel::Fail(
            match run.phase {
                Phase::Describing(index) => Failure::Context(
                    "failed to load the chip description from "@
                        + run.config.general.chip_descriptions@[index as int]@,
                ),
                Phase::Listing => Failure::Message("Families could not be read: "@ + error@),
                Phase::Querying => Failure::Message(
                    "failed to parse Cargo project information: "@ + error@,
                ),
                Phase::Locating => Failure::Message("Couldn't get artifact path: "@ + error@),
                Phase::Selecting => Failure::Context("failed to select protocol"@),
                Phase::Pacing => Failure::Context("failed to set speed"@),
                Phase::Attaching => Failure::Context("failed attaching to target"@),
                Phase::Flashing => Failure::Context("failed to flash "@ + run.path),
                _ => Failure::Cause,
            },
        ),
{
}

/// A run fails only for a reason: an action failed, the ids of the probe are no numbers, there is not
/// exactly one probe, both GDB and the terminal are on, or the time was up after an attempt.
pub proof fn law_runs_fail_only_for_a_reason(run: RunModel, event: Event)
    requires
        run.wf(),
        run.accepts(event),
        run.next(event).action is Fail,
    ensures
        ({
            ||| is_error(event)
            ||| run.phase is Locating && (request_of(run.config.probe) is InvalidVendorId
                || request_of(run.config.probe) is InvalidProductId)
            ||| event matches Event::Probes(probes) && probes != 1
            ||| run.config.gdb.enabled && run.config.rtt.enabled
            ||| run.phase matches Phase::Timing(attempts) && attempts.error is Some && (
            event matches Event::Elapsed(elapsed) && elapsed as usize >= run.config.rtt.timeout)
        }),
{
}

/// Whether an event tells that the target was flashed.
pub open spec fn is_flashed(event: Event) -> bool {
    event matches Event::Flashed(Ok(_))
}

proof fn lemma_flashed(run: RunModel, events: Seq<Event>)
    requires
        run.phase is Ready,
        accepted(run, events),
        run.config.flashing.enabled,
        11 <= stage(replay(run, events).phase) < 15,
    ensures
        exists|j: int| 0 <= j < events.len() && is_flashed(#[trigger] events[j]),
    decreases events.len(),
{
    let before = events.drop_last();
    let at = replay(run, before);
    law_the_request_stays(run, before);
    if at.phase is Flashing {
        assert(is_flashed(events[events.len() - 1]));
    } else {
        lemma_flashed(run, before);
        let j = choose|j: int| 0 <= j < before.len() && is_flashed(#[trigger] before[j]);
        assert(is_flashed(events[j]));
    }
}

/// Where flashing is on, neither GDB nor the terminal is begun, and no run ends well that is not
/// just a list of chips, before the target was flashed.
pub proof fn law_flashing_comes_before_the_session(run: RunModel, events: Seq<Event>, i: int)
    requires
        run.phase is Ready,
        accepted(run, events),
        0 <= i < actions_of(run, events).len(),
        run.config.flashing.enabled,
        ({
            let action = actions_of(run, events)[i];
            action is ServeGdb || is_for_terminal(action) || action is Finish
        }),
    ensures
        exists|j: int| 0 <= j <= i && is_flashed(#[trigger] events[j]),
{
    lemma_action_count(run, events);
    lemma_last_action(run, events, i);
    law_the_request_stays(run, events.take(i));
    lemma_flashed(run, events.take(i));
    let j = choose|j: int| 0 <= j < i && is_flashed(#[trigger] events.take(i)[j]);
    assert(is_flashed(events[j]));
}

/// A run that ends well has done what its configuration asks for: with GDB on it has served GDB, and
/// with the terminal on it has been at the terminal, or had no time for a single attempt at it.
pub proof fn law_a_good_end_follows_the_session(run: RunModel, events: Seq<Event>, i: int)
    requires
        run.phase is Ready,
        accepted(run, events),
        0 <= i < actions_of(run, events).len(),
        actions_of(run, events)[i] is Finish,
    ensures
        ({
            let at = replay(run, events.take(i)).phase;
            &&& run.config.gdb.enabled ==> at is Serving
            &&& run.config.rtt.enabled ==> at is Polling || (at matches Phase::Timing(attempts)
                && attempts.next == 1)
        }),
{
    lemma_action_count(run, events);
    lemma_last_action(run, events, i);
    lemma_remembers(run, events.take(i));
    law_the_request_stays(run, events.take(i));
    law_runs_stay_in_order(run, events.take(i));
}

} // verus!
