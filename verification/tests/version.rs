use panicvtt_engine::version::VERSION;

#[test]
fn test_version() {
    let version = panicvtt_engine::version();
    assert_eq!(version, VERSION);
}

#[test]
fn version() {
    let version = panicvtt_engine::version();
    assert_eq!(version, VERSION);
}
