use brush_embedded::sys::wasm::terminal::{Config, HostState, Progress, WasmHostFuture, _continue};

const SCRIPT: &str = "(function(){ return JSON.stringify({ok:true, result: {ok:true}}); })()";
const REPLY: &str = r#"{"ok":true, "result": {"ok": true}}"#;

#[test]
fn test_wasm_host_future_roundtrip() {
    let mut host: HostState<u8> = HostState::new();
    let (fut, request) = WasmHostFuture::new(&mut host, SCRIPT.to_string(), false);
    let cookie = fut.cookie();
    assert_eq!(request.directory, "./dev/host/eval");
    assert_eq!(request.file, format!("{}.js", cookie));
    assert_eq!(request.script, SCRIPT);

    let location = host.reply_location(cookie);
    assert_eq!(location.directory, "./dev/host/eval");
    assert_eq!(location.file, format!("{}.json", cookie));
    let continued = _continue(&mut host, cookie, Some(REPLY.to_string()));
    assert!(continued.remove_reply);
    assert!(continued.wake.is_none());

    match fut.poll(&mut host, 1) {
        Progress::Ready(res) => {
            assert!(res.is_ok());
            assert_eq!(res, Ok(REPLY.to_string()));
        }
        Progress::Pending => panic!("the reply is there"),
    }
}

#[test]
fn test_config_apply_to_term_ok() {
    let mut host: HostState<u8> = HostState::new();
    let (fut, _) = WasmHostFuture::new(&mut host, SCRIPT.to_string(), true);
    let cookie = fut.cookie();
    _continue(&mut host, cookie, Some(REPLY.to_string()));

    let (size, _) = Config::size_request(&mut host, true);
    _continue(&mut host, size.cookie(), Some(REPLY.to_string()));
    let size = match size.poll(&mut host, 1) {
        Progress::Ready(evaluated) => Config::get_window_size(evaluated),
        Progress::Pending => panic!("the reply is there"),
    };
    let cfg = Config::from_term((), size).expect("from_term ok");

    let (fut, _) = cfg.apply_request(&mut host, true);
    _continue(&mut host, fut.cookie(), Some(REPLY.to_string()));
    let res = match fut.poll(&mut host, 1) {
        Progress::Ready(evaluated) => cfg.apply_to_term((), evaluated),
        Progress::Pending => panic!("the reply is there"),
    };
    assert!(res.is_ok());
}
