use one_pass::config::{Config, Server, Urls};

fn server(request_timeout: i64) -> Server {
    Server { addr: "0.0.0.0".to_string(), port: 20004, request_timeout }
}

#[test]
fn timeout_in_milliseconds() {
    assert_eq!(server(600).request_timeout_millis(), 600);
    assert_eq!(server(0).request_timeout_millis(), 0);
    assert_eq!(server(i64::MAX).request_timeout_millis(), 9223372036854775807);
}

#[test]
fn negative_timeout_is_longer_than_any_attempt() {
    assert_eq!(server(-1).request_timeout_millis(), u64::MAX);
    assert_eq!(server(-600).request_timeout_millis(), 18446744073709551016);
    assert_eq!(server(i64::MIN).request_timeout_millis(), 9223372036854775808);
}

#[test]
fn config_holds_its_parts() {
    let config = Config {
        server: server(250),
        urls: Urls {
            get_pay: "http://upstream/getPay".to_string(),
            init_funds: "http://upstream/initFunds".to_string(),
            batch_pay_finish: "http://upstream/batchPayFinish".to_string(),
        },
    };
    assert_eq!(config.server.port, 20004);
    assert_eq!(config.server.request_timeout_millis(), 250);
    assert_eq!(config.urls.get_pay, "http://upstream/getPay");
    assert_eq!(config.clone(), config);
}
