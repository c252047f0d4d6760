#[test]
fn sanity_check() {
    assert_eq!(2 + 2, 4);
}

#[test]
fn library_is_linked() {
    assert_eq!(signalui::cli::CLI_NAME, "signalui-cli");
}
