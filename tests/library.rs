use chrome_server::cache::{DiscoveryCache, Step};
use chrome_server::config::{
    default_endpoint, default_port, resolve_hostname, should_auto_start, version_url,
};
use chrome_server::control::AppContext;
use chrome_server::discovery::{discovery_body, finish_fetch, modify_json_output, HealthState};
use chrome_server::launcher::{
    chrome_args, get_default_chrome_bin, is_lightpanda_build, lightpanda_args, TargetOs,
};
use chrome_server::registry::{shutdown_reply, Registry};
use chrome_server::routes::{route, Method, Route};
use chrome_server::text::{decimal_bytes, parse_u32_bytes, replace_bytes};

fn b(s: &str) -> Vec<u8> {
    s.as_bytes().to_vec()
}

#[test]
fn rewrite_replaces_every_loopback_marker() {
    let body = b("{\"webSocketDebuggerUrl\":\"ws://127.0.0.1:9222/devtools/browser/1\",\"x\":\"127.0.0.1\"}");
    let out = modify_json_output(&body, b"proxy.example");
    assert_eq!(
        out,
        b("{\"webSocketDebuggerUrl\":\"ws://proxy.example:9222/devtools/browser/1\",\"x\":\"proxy.example\"}")
    );
}

#[test]
fn rewrite_without_hostname_is_identity() {
    let body = b("{\"url\":\"ws://127.0.0.1:9222/x\"}");
    assert_eq!(modify_json_output(&body, b""), body);
}

#[test]
fn rewrite_without_marker_is_identity() {
    let body = b("{\"url\":\"ws://localhost:9222/x\",\"ip\":\"127.0.0.2\"}");
    assert_eq!(modify_json_output(&body, b"host"), body);
    assert_eq!(modify_json_output(b"", b"host"), b(""));
}

#[test]
fn replace_scans_from_the_left() {
    assert_eq!(replace_bytes(b"aaa", b"aa", b"b"), b("ba"));
    assert_eq!(replace_bytes(b"abc", b"", b"x"), b("abc"));
    assert_eq!(replace_bytes(b"--port=9222", b"--port=", b""), b("9222"));
}

#[test]
fn decimal_and_parse() {
    assert_eq!(decimal_bytes(0), b("0"));
    assert_eq!(decimal_bytes(9223), b("9223"));
    assert_eq!(decimal_bytes(4294967295), b("4294967295"));
    assert_eq!(parse_u32_bytes(b"9222"), Some(9222));
    assert_eq!(parse_u32_bytes(b"+12"), Some(12));
    assert_eq!(parse_u32_bytes(b"4294967295"), Some(4294967295));
    assert_eq!(parse_u32_bytes(b"4294967296"), None);
    assert_eq!(parse_u32_bytes(b""), None);
    assert_eq!(parse_u32_bytes(b"+"), None);
    assert_eq!(parse_u32_bytes(b"-1"), None);
    assert_eq!(parse_u32_bytes(b"12a"), None);
}

#[test]
fn launches_are_registered() {
    let mut reg = Registry::new();
    assert_eq!(reg.record_launch(Some(4321)), 4321);
    assert_eq!(reg.record_launch(Some(4322)), 4322);
    assert_eq!(reg.record_launch(None), 0);
    assert!(reg.contains(4321));
    assert!(reg.contains(4322));
    assert!(reg.contains(0));
    reg.insert(4321);
    let mut ids = reg.snapshot();
    ids.sort();
    assert_eq!(ids, vec![0, 4321, 4322]);
}

#[test]
fn fork_then_shutdown_confirms_the_id() {
    let mut ctx = AppContext::new(Vec::new());
    let reply = ctx.fork_reply(Some(1234));
    assert_eq!(reply, b("1234"));
    let (target, text) = ctx.shutdown_plan(1234);
    assert_eq!(target, Some(1234));
    assert_eq!(text, b("1234"));
    let (target, text) = ctx.shutdown_plan(999);
    assert_eq!(target, None);
    assert_eq!(text, b("0"));
}

#[test]
fn failed_launch_answers_zero() {
    let mut ctx = AppContext::new(Vec::new());
    assert_eq!(ctx.fork_reply(None), b("0"));
    assert!(ctx.registry.contains(0));
}

#[test]
fn shutdown_all_targets_every_id_and_answers_zero() {
    let mut ctx = AppContext::new(Vec::new());
    let (ids, text) = ctx.shutdown_all_plan();
    assert!(ids.is_empty());
    assert_eq!(text, b("0"));
    ctx.fork_reply(Some(7));
    ctx.fork_reply(Some(8));
    ctx.fork_reply(Some(7));
    let (mut ids, text) = ctx.shutdown_all_plan();
    ids.sort();
    assert_eq!(ids, vec![7, 8]);
    assert_eq!(text, b("0"));
    assert_eq!(shutdown_reply(None), 0);
    assert_eq!(shutdown_reply(Some(8)), 8);
}

#[test]
fn single_flight_fetches_once_per_key() {
    let mut cache = DiscoveryCache::new();
    let key: Option<Vec<u8>> = None;
    assert!(matches!(cache.begin(&key), Step::Fetch));
    for _ in 0..5 {
        assert!(matches!(cache.begin(&key), Step::Wait));
    }
    let other = Some(b("http://127.0.0.1:9000/json/version"));
    assert!(matches!(cache.begin(&other), Step::Fetch));
    cache.complete(&key, Some(b("{}")));
    for _ in 0..5 {
        match cache.begin(&key) {
            Step::Done(Some(body)) => assert_eq!(body, b("{}")),
            _ => panic!("expected the kept document"),
        }
    }
    assert!(matches!(cache.begin(&other), Step::Wait));
}

#[test]
fn failed_fetch_outcome_is_kept() {
    let mut ctx = AppContext::new(b("host"));
    let key = Some(b("a"));
    assert!(matches!(ctx.discovery_step(&key), Step::Fetch));
    assert_eq!(ctx.discovery_done(&key, None), None);
    assert!(matches!(ctx.discovery_step(&key), Step::Done(None)));
}

#[test]
fn health_follows_the_last_fetch() {
    let mut ctx = AppContext::new(b("proxy"));
    let k1 = Some(b("one"));
    let k2 = Some(b("two"));
    let k3 = Some(b("three"));
    ctx.discovery_step(&k1);
    let doc = ctx.discovery_done(&k1, Some(b("ws://127.0.0.1:1")));
    assert_eq!(doc, Some(b("ws://proxy:1")));
    assert_eq!(ctx.health.hc(), (200, "healthy!"));
    ctx.discovery_step(&k2);
    assert_eq!(ctx.discovery_done(&k2, None), None);
    assert_eq!(ctx.health.hc(), (500, "unhealthy!"));
    ctx.discovery_step(&k3);
    assert!(ctx.discovery_done(&k3, Some(b("{}"))).is_some());
    assert_eq!(ctx.health.hc(), (200, "healthy!"));
}

#[test]
fn finish_fetch_sets_health() {
    let mut h = HealthState::new();
    assert_eq!(finish_fetch(&mut h, None, b"x"), None);
    assert!(!h.healthy);
    assert_eq!(finish_fetch(&mut h, Some(b("127.0.0.1")), b""), Some(b("127.0.0.1")));
    assert!(h.healthy);
}

#[test]
fn failed_port_fetch_answers_empty_body() {
    assert_eq!(discovery_body(None), Vec::<u8>::new());
    assert_eq!(discovery_body(Some(b("{}"))), b("{}"));
}

#[test]
fn endpoints() {
    assert_eq!(version_url(9222), b("http://127.0.0.1:9222/json/version"));
    assert_eq!(default_endpoint(None), b("http://127.0.0.1:9223/json/version"));
    assert_eq!(default_endpoint(Some(b"9000")), b("http://127.0.0.1:9000/json/version"));
    assert_eq!(default_port(Some(b"0")), 9223);
    assert_eq!(default_port(Some(b"abc")), 9223);
    assert_eq!(default_port(None), 9223);
}

#[test]
fn hostname_resolution() {
    assert_eq!(resolve_hostname(Some(b("ext")), Some(b("box"))), b("ext"));
    assert_eq!(resolve_hostname(Some(b("")), Some(b("box"))), b("box"));
    assert_eq!(resolve_hostname(None, Some(b("box"))), b("box"));
    assert_eq!(resolve_hostname(Some(b("")), None), b(""));
    assert_eq!(resolve_hostname(None, None), b(""));
}

#[test]
fn auto_start_decision() {
    assert!(should_auto_start(&Some(b("init")), &None));
    assert!(!should_auto_start(&Some(b("ignore")), &Some(b("true"))));
    assert!(should_auto_start(&None, &Some(b("true"))));
    assert!(!should_auto_start(&None, &Some(b("false"))));
    assert!(!should_auto_start(&None, &None));
}

#[test]
fn chrome_arguments() {
    let template = vec![
        b("--remote-debugging-address=0.0.0.0"),
        b("--remote-debugging-port=9222"),
        b("--headless"),
    ];
    let args = chrome_args(&template, b"10.0.0.5", Some(9300));
    assert_eq!(
        args,
        vec![
            b("--remote-debugging-address=10.0.0.5"),
            b("--remote-debugging-port=9300"),
            b("--headless"),
        ]
    );
    assert_eq!(chrome_args(&template, b"", None), template);
}

#[test]
fn lightpanda_arguments() {
    let template = vec![b("--host=0.0.0.0"), b("--port=9222")];
    assert_eq!(
        lightpanda_args(&template),
        vec![b("--port"), b("9222"), b("--host"), b("0.0.0.0")]
    );
    assert!(is_lightpanda_build(b"/opt/bin/lightpanda-x86_64-linux"));
    assert!(is_lightpanda_build(b"lightpanda-aarch64-macos"));
    assert!(!is_lightpanda_build(b"/usr/bin/chromium"));
}

#[test]
fn default_binaries() {
    assert_eq!(get_default_chrome_bin(TargetOs::Windows), "chrome.exe");
    assert_eq!(
        get_default_chrome_bin(TargetOs::MacOs),
        "/Applications/Google Chrome.app/Contents/MacOS/Google Chrome"
    );
    assert_eq!(get_default_chrome_bin(TargetOs::Linux), "chromium");
    assert_eq!(get_default_chrome_bin(TargetOs::Other), "chrome");
}

#[test]
fn routing() {
    assert!(matches!(route(Method::Get, b"/"), Route::Health));
    assert!(matches!(route(Method::Get, b"/json/version"), Route::Version));
    assert!(matches!(route(Method::Get, b"/json/version/9222"), Route::VersionPort(9222)));
    assert!(matches!(route(Method::Post, b"/fork"), Route::Fork));
    assert!(matches!(route(Method::Post, b"/fork/9300"), Route::ForkPort(9300)));
    assert!(matches!(route(Method::Post, b"/shutdown"), Route::ShutdownAll));
    assert!(matches!(route(Method::Post, b"/shutdown/77"), Route::Shutdown(77)));
    assert!(matches!(route(Method::Post, b"/shutdown/x"), Route::NotFound));
    assert!(matches!(route(Method::Get, b"/fork"), Route::NotFound));
    assert!(matches!(route(Method::Other, b"/"), Route::NotFound));
    assert!(matches!(route(Method::Get, b"/json/version/"), Route::NotFound));
}
