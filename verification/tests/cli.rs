use signalui::cli::{device_line, devices_total_line, error_line, pair_result, paired_line, paired_status, Cli, Cmd};
use signalui::pair_flow::PairOutcome;

#[test]
fn cli_definition_is_valid() {
    Cli::command().debug_assert();
}

#[test]
fn parses_pair_subcommand() {
    let cli = Cli::try_parse_from(&["signalui-cli", "pair"]).unwrap();
    assert!(matches!(cli.cmd, Cmd::Pair));
}

#[test]
fn parses_paired_subcommand() {
    let cli = Cli::try_parse_from(&["signalui-cli", "paired"]).unwrap();
    assert!(matches!(cli.cmd, Cmd::Paired));
}

#[test]
fn parses_devices_subcommand() {
    let cli = Cli::try_parse_from(&["signalui-cli", "devices"]).unwrap();
    assert!(matches!(cli.cmd, Cmd::Devices));
}

#[test]
fn rejects_unknown_subcommand() {
    let err = Cli::try_parse_from(&["signalui-cli", "explode"]).unwrap_err();
    assert!(err.message().contains("unrecognized") || err.message().contains("invalid"));
}

#[test]
fn requires_a_subcommand() {
    assert!(Cli::try_parse_from(&["signalui-cli"]).is_err());
}

#[test]
fn from_outcome_maps_each_subcommand_and_error() {
    assert_eq!(Cli::from_outcome(Ok(Some("pair".to_string()))).unwrap().cmd, Cmd::Pair);
    assert_eq!(Cli::from_outcome(Ok(Some("paired".to_string()))).unwrap().cmd, Cmd::Paired);
    assert_eq!(Cli::from_outcome(Ok(Some("devices".to_string()))).unwrap().cmd, Cmd::Devices);
    let e = Cli::from_outcome(Ok(None)).unwrap_err();
    assert_eq!(e.message(), "error: a subcommand is required");
    let e = Cli::from_outcome(Ok(Some("other".to_string()))).unwrap_err();
    assert_eq!(e.message(), "error: a subcommand is required");
    assert!(e.to_stderr);
    let e = Cli::from_outcome(Err(("boom".to_string(), true))).unwrap_err();
    assert_eq!(e.message(), "boom");
    assert!(e.to_stderr);
    let e = Cli::from_outcome(Err(("usage".to_string(), false))).unwrap_err();
    assert!(!e.to_stderr);
}

#[test]
fn help_and_version_go_to_standard_output() {
    let help = Cli::try_parse_from(&["signalui-cli", "--help"]).unwrap_err();
    assert!(!help.to_stderr);
    assert!(help.message().contains("pair"));
    let version = Cli::try_parse_from(&["signalui-cli", "--version"]).unwrap_err();
    assert!(!version.to_stderr);
    assert!(version.message().contains("0.1.0"));
    assert!(Cli::try_parse_from(&["signalui-cli", "explode"]).unwrap_err().to_stderr);
}

#[test]
fn paired_status_classifies_load_errors() {
    assert_eq!(paired_status(Ok(())), Ok(true));
    assert_eq!(paired_status(Err("device not yet registered".to_string())), Ok(false));
    assert_eq!(paired_status(Err("store: missing key aci".to_string())), Ok(false));
    assert_eq!(
        paired_status(Err("database locked".to_string())),
        Err("load_registered: database locked".to_string())
    );
    assert_eq!(paired_line(true), "PAIRED");
    assert_eq!(paired_line(false), "NOT_PAIRED");
}

#[test]
fn device_lines_are_formatted() {
    assert_eq!(device_line(1, "2024-01-01 00:00:00 UTC", true, &Some("Phone".to_string())), "DEVICE 1 2024-01-01 00:00:00 UTC *Phone");
    assert_eq!(device_line(3, "42", false, &None), "DEVICE 3 42 -(no device name)");
    assert_eq!(devices_total_line(2), "OK 2");
    assert_eq!(error_line("bad"), "ERROR bad");
}

#[test]
fn pair_result_texts() {
    assert_eq!(pair_result(PairOutcome::Success(())), Ok(()));
    assert_eq!(pair_result::<()>(PairOutcome::Timeout(300)), Err("timed out after 300s".to_string()));
    assert_eq!(
        pair_result::<()>(PairOutcome::Failed("nope".to_string())),
        Err("link_secondary_device: nope".to_string())
    );
}
