use nyancat::cli::Args;

#[test]
fn default_options_serve_the_local_terminal() {
    let args = Args::new();
    assert!(!args.telnet);
    assert!(!args.http);
    assert!(!args.no_counter);
    assert!(!args.no_clear);
    assert!(args.frames.is_none());
    assert_eq!(args.port, 23);
}
