use cargo_embed::arguments::Opt;
use cargo_embed::artifact::{
    handle_failed_command, requested_artifact, Artifact, ArtifactRequest, CommandStatus, Profile,
};
use cargo_embed::config::{ProbeConfig, WireProtocol};
use cargo_embed::families::{print_families, Family};
use cargo_embed::probe::{
    ignored_id_warnings, requested_probe, selected_chip, ChipSelector, ProbeRequest, ProbeSelector,
};

fn probe(vid: Option<&str>, pid: Option<&str>) -> ProbeConfig {
    ProbeConfig {
        usb_vid: vid.map(|v| v.to_string()),
        usb_pid: pid.map(|p| p.to_string()),
        serial: Some("000683475896".to_string()),
        protocol: WireProtocol::Swd,
        speed: None,
    }
}

fn options(bin: Option<&str>, example: Option<&str>, release: bool, target: Option<&str>) -> Opt {
    Opt {
        config: None,
        list_chips: false,
        disable_progressbars: false,
        bin: bin.map(|b| b.to_string()),
        example: example.map(|e| e.to_string()),
        release,
        target: target.map(|t| t.to_string()),
    }
}

#[test]
fn both_ids_select_a_probe() {
    assert_eq!(
        requested_probe(&probe(Some("1366"), Some("10Af"))),
        ProbeRequest::Selected(ProbeSelector {
            vendor_id: 0x1366,
            product_id: 0x10af,
            serial_number: Some("000683475896".to_string()),
        })
    );
}

#[test]
fn ids_may_have_a_sign_and_leading_zeros() {
    match requested_probe(&probe(Some("+ffff"), Some("00000000000a"))) {
        ProbeRequest::Selected(selector) => {
            assert_eq!(selector.vendor_id, 0xffff);
            assert_eq!(selector.product_id, 10);
        }
        other => panic!("{:?}", other),
    }
}

#[test]
fn invalid_vendor_ids() {
    for vid in ["", "+", "-1", "10000", "0x1366", "13 66", "g", "1_0", "++1", "\u{ff11}"] {
        assert!(matches!(
            requested_probe(&probe(Some(vid), Some("1"))),
            ProbeRequest::InvalidVendorId(_)
        ));
    }
}

#[test]
fn invalid_vendor_id_comes_first_with_its_own_error() {
    match requested_probe(&probe(Some("x"), Some(""))) {
        ProbeRequest::InvalidVendorId(error) => {
            assert_eq!(error, u16::from_str_radix("x", 16).unwrap_err());
            assert_ne!(error, u16::from_str_radix("", 16).unwrap_err());
        }
        other => panic!("{:?}", other),
    }
}

#[test]
fn invalid_product_id_keeps_the_error() {
    match requested_probe(&probe(Some("1366"), Some("zz"))) {
        ProbeRequest::InvalidProductId(error) => {
            assert_eq!(error, u16::from_str_radix("zz", 16).unwrap_err());
        }
        other => panic!("{:?}", other),
    }
}

#[test]
fn one_id_alone_is_ignored() {
    assert_eq!(requested_probe(&probe(Some("xyz"), None)), ProbeRequest::Only);
    assert_eq!(requested_probe(&probe(None, Some("xyz"))), ProbeRequest::Only);
    assert_eq!(requested_probe(&probe(None, None)), ProbeRequest::Only);
    assert_eq!(
        ignored_id_warnings(&probe(Some("xyz"), None)),
        vec!["USB VID ignored, because PID is not specified."]
    );
    assert_eq!(
        ignored_id_warnings(&probe(None, Some("xyz"))),
        vec!["USB PID ignored, because VID is not specified."]
    );
    assert_eq!(ignored_id_warnings(&probe(None, None)), Vec::<String>::new());
    assert_eq!(ignored_id_warnings(&probe(Some("1"), Some("2"))), Vec::<String>::new());
}

#[test]
fn chips() {
    assert_eq!(
        selected_chip(&Some("nRF52832_xxAA".to_string())),
        ChipSelector::Named("nRF52832_xxAA".to_string())
    );
    assert_eq!(selected_chip(&None), ChipSelector::Auto);
}

#[test]
fn artifact_by_name() {
    let host = "x86_64-unknown-linux-gnu".to_string();
    assert_eq!(
        requested_artifact(&options(Some("a"), Some("b"), true, Some("thumbv7em-none-eabi")), "p"),
        ArtifactRequest {
            artifact: Artifact::Bin("a".to_string()),
            profile: Profile::Release,
            target: Some("thumbv7em-none-eabi".to_string()),
            host: host.clone(),
        }
    );
    assert_eq!(
        requested_artifact(&options(None, Some("b"), false, None), "p"),
        ArtifactRequest {
            artifact: Artifact::Example("b".to_string()),
            profile: Profile::Dev,
            target: None,
            host,
        }
    );
}

#[test]
fn artifact_of_the_project() {
    let request = requested_artifact(&options(None, None, false, None), "blinky");
    assert_eq!(request.artifact, Artifact::Bin("blinky".to_string()));
}

#[test]
fn failed_commands() {
    let status = |code, signal| CommandStatus { success: false, code, signal };
    assert_eq!(handle_failed_command(status(Some(101), None)), 101);
    assert_eq!(handle_failed_command(status(Some(101), Some(9))), 101);
    assert_eq!(handle_failed_command(status(None, Some(9))), 9);
    assert_eq!(handle_failed_command(status(None, None)), 1);
}

#[test]
fn families_are_listed_with_their_chips() {
    let families = vec![
        Family {
            name: "nRF52 Series".to_string(),
            variants: vec!["nRF52810_xxAA".to_string(), "nRF52832_xxAA".to_string()],
        },
        Family { name: "Empty".to_string(), variants: Vec::new() },
    ];
    assert_eq!(
        print_families(&families),
        vec![
            "nRF52 Series",
            "    Variants:",
            "        nRF52810_xxAA",
            "        nRF52832_xxAA",
            "Empty",
            "    Variants:",
        ]
    );
    assert_eq!(print_families(&Vec::new()), Vec::<String>::new());
}
