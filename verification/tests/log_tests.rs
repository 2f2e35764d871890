use exe_proxy::log::{
    forwarded, invocation_line, log_path, push_decimal, timestamp, CONFIG_PATH, LOG_PATH_PREFIX,
    LOG_PATH_SUFFIX,
};

fn strings(parts: &[&str]) -> Vec<String> {
    parts.iter().map(|s| s.to_string()).collect()
}

#[test]
fn fixed_paths() {
    assert_eq!(CONFIG_PATH, "./exe-proxy-target.txt");
    assert_eq!(LOG_PATH_PREFIX, "./exe-proxy");
    assert_eq!(LOG_PATH_SUFFIX, ".log");
}

#[test]
fn log_path_holds_the_milliseconds() {
    assert_eq!(log_path(0), "./exe-proxy.0.log");
    assert_eq!(log_path(7), "./exe-proxy.7.log");
    assert_eq!(log_path(10), "./exe-proxy.10.log");
    assert_eq!(log_path(1700000000123), "./exe-proxy.1700000000123.log");
    assert_eq!(log_path(u128::MAX), format!("./exe-proxy.{}.log", u128::MAX));
}

#[test]
fn same_second_different_millisecond_gives_different_logs() {
    let a = log_path(1700000000123);
    let b = log_path(1700000000124);
    let c = log_path(1700000000999);
    assert_ne!(a, b);
    assert_ne!(a, c);
    assert_ne!(b, c);
    assert_eq!(a, log_path(1700000000123));
}

#[test]
fn neighbouring_milliseconds_never_share_a_log() {
    let mut ms: u128 = 0;
    let mut last = String::new();
    while ms < 2000 {
        let path = log_path(ms);
        assert_ne!(path, last);
        assert_eq!(path, format!("./exe-proxy.{ms}.log"));
        last = path;
        ms += 1;
    }
}

#[test]
fn decimal_is_appended() {
    let mut s = String::from("n=");
    push_decimal(&mut s, 0);
    assert_eq!(s, "n=0");
    push_decimal(&mut s, 905);
    assert_eq!(s, "n=0905");
    let mut t = String::new();
    push_decimal(&mut t, 340282366920938463463374607431768211455);
    assert_eq!(t, "340282366920938463463374607431768211455");
}

#[test]
fn clock_reading_or_zero() {
    assert_eq!(timestamp(Some(1234)), 1234);
    assert_eq!(timestamp(Some(0)), 0);
    assert_eq!(timestamp(None), 0);
}

#[test]
fn invocation_line_joins_with_spaces() {
    assert_eq!(invocation_line(&strings(&["exe-proxy", "a", "b"])), "exe-proxy a b:\n");
    assert_eq!(invocation_line(&strings(&["exe-proxy"])), "exe-proxy:\n");
    assert_eq!(invocation_line(&strings(&[])), ":\n");
    assert_eq!(invocation_line(&strings(&["p", "", "x y"])), "p  x y:\n");
}

#[test]
fn forwarded_drops_the_own_name() {
    assert_eq!(forwarded(&strings(&["exe-proxy", "a", "b"])), strings(&["a", "b"]));
    assert_eq!(forwarded(&strings(&["exe-proxy"])), strings(&[]));
    assert_eq!(forwarded(&strings(&[])), strings(&[]));
    assert_eq!(forwarded(&strings(&["p", "--flag", "", "p"])), strings(&["--flag", "", "p"]));
}
