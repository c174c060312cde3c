use cargo_embed::arguments::Opt;
use cargo_embed::artifact::{Artifact, ArtifactRequest, CommandStatus, Profile};
use cargo_embed::config::{
    Configs, FlashingConfig, GdbConfig, GeneralConfig, ProbeConfig, RttConfig, WireProtocol,
};
use cargo_embed::families::Family;
use cargo_embed::probe::{ChipSelector, ProbeSelector};
use cargo_embed::progress::ProgressPlan;
use cargo_embed::report::StatusWord;
use cargo_embed::run::{Action, Event, Failure, FlashPlan, Output, Phase, Run, ScanRegion};
use cargo_embed::step::{
    config_failure, flash_plan, gdb_address, scan_region, speed_outputs, RunStep,
};

fn text(text: &str) -> String {
    text.to_string()
}

fn options() -> Opt {
    Opt {
        config: Some(text("rtt")),
        list_chips: false,
        disable_progressbars: false,
        bin: None,
        example: None,
        release: true,
        target: None,
    }
}

fn configuration() -> Configs {
    Configs {
        general: GeneralConfig { chip: Some(text("nRF52832_xxAA")), chip_descriptions: vec![] },
        probe: ProbeConfig {
            usb_vid: None,
            usb_pid: None,
            serial: None,
            protocol: WireProtocol::Swd,
            speed: None,
        },
        flashing: FlashingConfig {
            enabled: true,
            restore_unwritten_bytes: false,
            flash_layout_output_path: None,
            halt_afterwards: false,
        },
        gdb: GdbConfig { enabled: false, gdb_connection_string: None },
        rtt: RttConfig { enabled: false, timeout: 3000 },
    }
}

fn arguments() -> Vec<String> {
    vec![text("embed"), text("--release"), text("rtt"), text("--quiet")]
}

fn begin(opt: Opt, config: Configs) -> RunStep {
    follow(Run::new(opt, arguments(), config), Event::Start)
}

fn follow(run: Run<String, Vec<String>>, event: Event) -> RunStep {
    assert!(run.accepts(&event));
    run.step(event)
}

fn done() -> Event {
    Event::Done(Ok(()))
}

fn broken() -> Event {
    Event::Done(Err(text("broken")))
}

fn built() -> Event {
    Event::Built(Ok(CommandStatus { success: true, code: Some(0), signal: None }))
}

fn located(config: Configs) -> RunStep {
    let step = begin(options(), config);
    let step = follow(step.run, built());
    let step = follow(step.run, Event::Project(Ok(text("blinky"))));
    follow(step.run, Event::Located(Ok(text("target/release/blinky"))))
}

fn opened(config: Configs) -> RunStep {
    let step = follow(located(config).run, Event::Probes(1));
    follow(step.run, done())
}

fn paced(config: Configs) -> RunStep {
    let step = follow(opened(config).run, done());
    follow(step.run, Event::Speed(Ok(4000)))
}

fn attached(config: Configs) -> RunStep {
    follow(paced(config).run, done())
}

fn rtt_configuration() -> Configs {
    let mut config = configuration();
    config.flashing.enabled = false;
    config.rtt.enabled = true;
    config
}

fn fails(step: RunStep, failure: Failure<String, std::num::ParseIntError>) {
    assert_eq!(step.action, Action::Fail(failure));
    assert_eq!(step.run.phase, Phase::Over);
    for event in [Event::Start, done(), broken(), Event::Probes(1), Event::Quit(true)] {
        assert!(!step.run.accepts(&event));
    }
}

#[test]
fn whole_run_that_flashes() {
    let step = begin(options(), configuration());
    assert_eq!(step.outputs, vec![]);
    assert_eq!(step.action, Action::Build(vec![text("--release"), text("--quiet")]));
    let step = follow(step.run, built());
    assert_eq!(step.action, Action::QueryProject);
    let step = follow(step.run, Event::Project(Ok(text("blinky"))));
    assert_eq!(
        step.action,
        Action::LocateArtifact(ArtifactRequest {
            artifact: Artifact::Bin(text("blinky")),
            profile: Profile::Release,
            target: None,
            host: text("x86_64-unknown-linux-gnu"),
        })
    );
    let step = follow(step.run, Event::Located(Ok(text("target/release/blinky"))));
    assert_eq!(
        step.outputs,
        vec![Output::Status(StatusWord::Flashing, text("target/release/blinky"))]
    );
    assert_eq!(step.action, Action::ListProbes);
    let step = follow(step.run, Event::Probes(1));
    assert_eq!(step.action, Action::OpenListedProbe);
    let step = follow(step.run, done());
    assert_eq!(step.action, Action::SelectProtocol(WireProtocol::Swd));
    let step = follow(step.run, done());
    assert_eq!(step.action, Action::ReadSpeed);
    let step = follow(step.run, Event::Speed(Ok(1000)));
    assert_eq!(step.outputs, vec![Output::Info(text("Protocol speed 1000 kHz"))]);
    assert_eq!(step.action, Action::Attach(ChipSelector::Named(text("nRF52832_xxAA"))));
    let step = follow(step.run, done());
    assert_eq!(
        step.action,
        Action::Flash(FlashPlan {
            keep_unwritten_bytes: false,
            progress: Some(ProgressPlan { fill: false, layout_path: None }),
        })
    );
    let step = follow(step.run, Event::Flashed(Ok(text("1.25"))));
    assert_eq!(step.outputs, vec![Output::Status(StatusWord::Finished, text("in 1.25s"))]);
    assert_eq!(step.action, Action::Reset);
    let step = follow(step.run, done());
    assert_eq!(step.outputs, vec![]);
    assert_eq!(step.action, Action::Finish);
    assert_eq!(step.run.phase, Phase::Over);
    assert!(!step.run.accepts(&done()));
}

#[test]
fn configuration_error() {
    assert_eq!(
        config_failure("no such profile"),
        "The config could not be loaded: no such profile"
    );
}

#[test]
fn descriptions_come_first() {
    let mut config = configuration();
    config.general.chip_descriptions = vec![text("a.yaml"), text("b.yaml")];
    let step = begin(options(), config);
    assert_eq!(step.action, Action::AddChipDescription(text("a.yaml")));
    let step = follow(step.run, done());
    assert_eq!(step.action, Action::AddChipDescription(text("b.yaml")));
    let step = follow(step.run, done());
    assert!(matches!(step.action, Action::Build(_)));
}

#[test]
fn description_that_cannot_be_loaded() {
    let mut config = configuration();
    config.general.chip_descriptions = vec![text("a.yaml"), text("b.yaml")];
    let step = begin(options(), config);
    let step = follow(step.run, done());
    fails(
        follow(step.run, broken()),
        Failure::Context(text("failed to load the chip description from b.yaml")),
    );
}

#[test]
fn listing_only_lists() {
    let mut opt = options();
    opt.list_chips = true;
    let run = Run::new(opt, vec![text("embed"), text("--list-chips")], configuration());
    let step = follow(run, Event::Start);
    assert_eq!(step.outputs, vec![Output::Print(text("Available chips:"))]);
    assert_eq!(step.action, Action::ListFamilies);
    let family = Family { name: text("nRF52"), variants: vec![text("nRF52832_xxAA")] };
    let step = follow(step.run, Event::Families(Ok(vec![family])));
    assert_eq!(
        step.outputs,
        vec![
            Output::Print(text("nRF52")),
            Output::Print(text("    Variants:")),
            Output::Print(text("        nRF52832_xxAA")),
        ]
    );
    assert_eq!(step.action, Action::Exit(0));
    assert_eq!(step.run.phase, Phase::Over);
}

#[test]
fn families_that_cannot_be_read() {
    let mut opt = options();
    opt.list_chips = true;
    let step = begin(opt, configuration());
    fails(
        follow(step.run, Event::Families(Err(text("Locked")))),
        Failure::Message(text("Families could not be read: Locked")),
    );
}

#[test]
fn build_needs_a_name_for_the_session() {
    let run = Run::new(options(), arguments()[..3].to_vec(), configuration());
    assert!(!run.accepts(&Event::Start));
    let run = Run::new(options(), arguments(), configuration());
    assert!(run.accepts(&Event::Start));
}

#[test]
fn failed_build_ends_the_run() {
    let step = begin(options(), configuration());
    let status = CommandStatus { success: false, code: Some(101), signal: None };
    let step = follow(step.run, Event::Built(Ok(status)));
    assert_eq!(step.action, Action::Exit(101));
    assert_eq!(step.run.phase, Phase::Over);
    let step = begin(options(), configuration());
    let status = CommandStatus { success: false, code: None, signal: Some(15) };
    assert_eq!(follow(step.run, Event::Built(Ok(status))).action, Action::Exit(15));
}

#[test]
fn build_that_does_not_start() {
    let step = begin(options(), configuration());
    fails(follow(step.run, Event::Built(Err(text("no cargo")))), Failure::Cause);
}

#[test]
fn project_errors() {
    let step = follow(begin(options(), configuration()).run, built());
    fails(
        follow(step.run, Event::Project(Err(text("not a Cargo project")))),
        Failure::Message(text("failed to parse Cargo project information: not a Cargo project")),
    );
    let step = follow(begin(options(), configuration()).run, built());
    let step = follow(step.run, Event::Project(Ok(text("blinky"))));
    fails(
        follow(step.run, Event::Located(Err(text("no such target")))),
        Failure::Message(text("Couldn't get artifact path: no such target")),
    );
}

#[test]
fn probe_by_its_ids() {
    let mut config = configuration();
    config.probe.usb_vid = Some(text("1366"));
    config.probe.usb_pid = Some(text("1015"));
    let step = located(config);
    assert_eq!(
        step.action,
        Action::OpenProbe(ProbeSelector {
            vendor_id: 0x1366,
            product_id: 0x1015,
            serial_number: None,
        })
    );
    fails(follow(step.run, broken()), Failure::Cause);
}

#[test]
fn probe_with_invalid_ids() {
    let mut config = configuration();
    config.probe.usb_vid = Some(text("J-Link"));
    config.probe.usb_pid = Some(text("1015"));
    let error = u16::from_str_radix("J-Link", 16).unwrap_err();
    fails(located(config), Failure::VendorId(error));
    let mut config = configuration();
    config.probe.usb_vid = Some(text("1366"));
    config.probe.usb_pid = Some(text("101500"));
    let error = u16::from_str_radix("101500", 16).unwrap_err();
    let step = located(config);
    assert_eq!(
        step.outputs,
        vec![Output::Status(StatusWord::Flashing, text("target/release/blinky"))]
    );
    fails(step, Failure::ProductId(error));
}

#[test]
fn ignored_id_is_told() {
    let mut config = configuration();
    config.probe.usb_vid = Some(text("1366"));
    let step = located(config);
    assert_eq!(
        step.outputs,
        vec![
            Output::Status(StatusWord::Flashing, text("target/release/blinky")),
            Output::Warn(text("USB VID ignored, because PID is not specified.")),
        ]
    );
    assert_eq!(step.action, Action::ListProbes);
}

#[test]
fn exactly_one_probe_is_needed() {
    fails(
        follow(located(configuration()).run, Event::Probes(2)),
        Failure::Message(text(
            "More than a single probe detected. Use the --probe-selector argument to select which probe to use.",
        )),
    );
    fails(
        follow(located(configuration()).run, Event::Probes(0)),
        Failure::Message(text("No supported probe was found")),
    );
    let step = follow(located(configuration()).run, Event::Probes(1));
    fails(follow(step.run, broken()), Failure::Cause);
}

#[test]
fn errors_on_the_way_to_the_target() {
    fails(
        follow(opened(configuration()).run, broken()),
        Failure::Context(text("failed to select protocol")),
    );
    fails(
        follow(paced(configuration()).run, broken()),
        Failure::Context(text("failed attaching to target")),
    );
    fails(
        follow(attached(configuration()).run, Event::Flashed(Err(text("broken")))),
        Failure::Context(text("failed to flash target/release/blinky")),
    );
    let step = follow(attached(configuration()).run, Event::Flashed(Ok(text("2"))));
    fails(follow(step.run, broken()), Failure::Cause);
}

#[test]
fn speed_that_was_asked_for() {
    let mut config = configuration();
    config.probe.speed = Some(8000);
    config.probe.protocol = WireProtocol::Jtag;
    config.general.chip = None;
    let step = opened(config);
    assert_eq!(step.action, Action::SelectProtocol(WireProtocol::Jtag));
    let step = follow(step.run, done());
    assert_eq!(step.action, Action::SetSpeed(8000));
    let step = follow(step.run, Event::Speed(Ok(4000)));
    assert_eq!(
        step.outputs,
        vec![
            Output::Warn(text(
                "Unable to use specified speed of 8000 kHz, actual speed used is 4000 kHz"
            )),
            Output::Info(text("Protocol speed 4000 kHz")),
        ]
    );
    assert_eq!(step.action, Action::Attach(ChipSelector::Auto));
    assert_eq!(
        speed_outputs(Some(4000), 4000),
        vec![Output::Info(text("Protocol speed 4000 kHz"))]
    );
}

#[test]
fn speed_that_cannot_be_set() {
    let mut config = configuration();
    config.probe.speed = Some(8000);
    let step = follow(opened(config).run, done());
    fails(
        follow(step.run, Event::Speed(Err(text("broken")))),
        Failure::Context(text("failed to set speed")),
    );
    let step = follow(opened(configuration()).run, done());
    assert!(!step.run.accepts(&Event::Speed(Err(text("broken")))));
}

#[test]
fn flash_plans() {
    let mut opt = options();
    let mut config = configuration();
    config.flashing.restore_unwritten_bytes = true;
    config.flashing.flash_layout_output_path = Some(text("layout.svg"));
    assert_eq!(
        flash_plan(&opt, &config),
        FlashPlan {
            keep_unwritten_bytes: true,
            progress: Some(ProgressPlan { fill: true, layout_path: Some(text("layout.svg")) }),
        }
    );
    opt.disable_progressbars = true;
    assert_eq!(
        flash_plan(&opt, &config),
        FlashPlan { keep_unwritten_bytes: true, progress: None }
    );
}

#[test]
fn halt_after_flashing() {
    let mut config = configuration();
    config.flashing.halt_afterwards = true;
    let step = follow(attached(config).run, Event::Flashed(Ok(text("1"))));
    assert_eq!(step.action, Action::ResetAndHalt(500));
}

#[test]
fn flashing_can_be_turned_off() {
    let mut config = configuration();
    config.flashing.enabled = false;
    assert_eq!(attached(config).action, Action::Finish);
}

#[test]
fn gdb_and_terminal_exclude_each_other() {
    let mut config = rtt_configuration();
    config.gdb.enabled = true;
    fails(
        attached(config),
        Failure::Message(text("Unfortunately, at the moment, only GDB OR RTT are possible.")),
    );
}

#[test]
fn gdb_server() {
    let mut config = configuration();
    config.flashing.enabled = false;
    config.gdb.enabled = true;
    let step = attached(config);
    assert_eq!(
        step.outputs,
        vec![Output::Print(text("Firing up GDB stub at localhost:1337."))]
    );
    assert_eq!(step.action, Action::ServeGdb(text("localhost:1337")));
    let step = follow(step.run, done());
    assert_eq!(step.outputs, vec![]);
    assert_eq!(step.action, Action::Finish);
    assert_eq!(gdb_address(&Some(text("127.0.0.1:2345"))), "127.0.0.1:2345");
}

#[test]
fn gdb_server_error_is_only_told() {
    let mut config = configuration();
    config.flashing.enabled = false;
    config.gdb.enabled = true;
    config.gdb.gdb_connection_string = Some(text("127.0.0.1:2345"));
    let step = attached(config);
    assert_eq!(step.action, Action::ServeGdb(text("127.0.0.1:2345")));
    let step = follow(step.run, broken());
    assert_eq!(
        step.outputs,
        vec![
            Output::PrintError(text("During the execution of GDB an error was encountered:")),
            Output::PrintError(text("broken")),
        ]
    );
    assert_eq!(step.action, Action::Finish);
}

#[test]
fn terminal_session() {
    let step = attached(rtt_configuration());
    assert_eq!(step.action, Action::ReadClock);
    let step = follow(step.run, Event::Elapsed(0));
    assert_eq!(step.outputs, vec![Output::Info(text("Initializing RTT (attempt 1)..."))]);
    assert_eq!(step.action, Action::FindRttSymbol);
    let step = follow(step.run, Event::Symbol(Some(0x2000_0000)));
    assert_eq!(step.action, Action::AttachRtt(ScanRegion::Exact(0x2000_0000)));
    let step = follow(step.run, done());
    assert_eq!(step.outputs, vec![Output::Info(text("RTT initialized."))]);
    assert_eq!(step.action, Action::OpenTerminal(text("--quiet")));
    let step = follow(step.run, done());
    assert_eq!(step.action, Action::PollTerminal);
    let step = follow(step.run, Event::Quit(false));
    assert_eq!(step.action, Action::PollTerminal);
    let step = follow(step.run, Event::Quit(true));
    assert_eq!(step.outputs, vec![Output::Print(text("Shutting down."))]);
    assert_eq!(step.action, Action::Finish);
    assert_eq!(step.run.phase, Phase::Over);
}

#[test]
fn terminal_that_cannot_be_opened() {
    let step = follow(attached(rtt_configuration()).run, Event::Elapsed(0));
    let step = follow(step.run, Event::Symbol(None));
    let step = follow(step.run, done());
    fails(follow(step.run, broken()), Failure::Cause);
}

#[test]
fn attempts_go_on_until_the_time_is_up() {
    let step = follow(attached(rtt_configuration()).run, Event::Elapsed(10));
    let step = follow(step.run, Event::Symbol(None));
    assert_eq!(step.action, Action::AttachRtt(ScanRegion::Ram));
    let step = follow(step.run, Event::Done(Err(text("first"))));
    assert_eq!(
        step.outputs,
        vec![Output::Debug(text("Failed to initialize RTT. Retrying until timeout."))]
    );
    assert_eq!(step.action, Action::ReadClock);
    let step = follow(step.run, Event::Elapsed(2999));
    assert_eq!(step.outputs, vec![Output::Info(text("Initializing RTT (attempt 2)..."))]);
    let step = follow(step.run, Event::Symbol(None));
    let step = follow(step.run, Event::Done(Err(text("second"))));
    fails(
        follow(step.run, Event::Elapsed(3000)),
        Failure::Message(text("Error attaching to RTT: second")),
    );
}

#[test]
fn no_time_for_a_single_attempt() {
    let mut config = rtt_configuration();
    config.rtt.timeout = 0;
    let step = follow(attached(config).run, Event::Elapsed(0));
    assert_eq!(step.outputs, vec![]);
    assert_eq!(step.action, Action::Finish);
    let step = attached(rtt_configuration());
    assert_eq!(follow(step.run, Event::Elapsed(5000)).action, Action::Finish);
}

#[test]
fn scan_regions() {
    assert_eq!(scan_region(None), ScanRegion::Ram);
    assert_eq!(scan_region(Some(0x2000_0400)), ScanRegion::Exact(0x2000_0400));
    assert_eq!(scan_region(Some(0x1_2000_0400)), ScanRegion::Exact(0x2000_0400));
}

#[test]
fn answers_to_other_actions_are_not_accepted() {
    let run = Run::new(options(), arguments(), configuration());
    assert!(!run.accepts(&done()));
    let step = begin(options(), configuration());
    assert!(!step.run.accepts(&Event::Start));
    assert!(!step.run.accepts(&Event::Probes(1)));
    assert!(step.run.accepts(&built()));
}
