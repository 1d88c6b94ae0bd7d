use std::path::PathBuf;
use webp_convert_api::cli::CliArgs;
use webp_convert_api::config::Config;
use webp_convert_api::config::ConfigError;
use webp_convert_api::config::IpHost;
use webp_convert_api::config::ListenerAddr;
use webp_convert_api::pidfile::pidfile_contents;
use webp_convert_api::pidfile::push_decimal;

fn local(port: u16) -> ListenerAddr {
    ListenerAddr { host: IpHost::V4 { octets: [127, 0, 0, 1] }, port }
}

#[test]
fn config_keeps_its_settings() {
    let config = Config::new("abcdef".to_string(), local(8080)).expect("a valid configuration");
    assert_eq!(config.apikey, "abcdef");
    assert_eq!(config.listener_addr, local(8080));
    let v6 = ListenerAddr { host: IpHost::V6 { segments: [0, 0, 0, 0, 0, 0, 0, 1], scope_id: 0 }, port: 0 };
    let config = Config::new(" ".to_string(), v6).expect("a valid configuration");
    assert_eq!(config.apikey, " ");
    assert_eq!(config.listener_addr, v6);
}

#[test]
fn config_refuses_an_empty_key() {
    let refused = Config::new(String::new(), local(8080));
    assert_eq!(refused.err(), Some(ConfigError::EmptyApiKey));
}

#[test]
fn pidfile_holds_the_decimal_numeral() {
    assert_eq!(pidfile_contents(0), b"0".to_vec());
    assert_eq!(pidfile_contents(7), b"7".to_vec());
    assert_eq!(pidfile_contents(10), b"10".to_vec());
    assert_eq!(pidfile_contents(1234), b"1234".to_vec());
    assert_eq!(pidfile_contents(100200), b"100200".to_vec());
    assert_eq!(pidfile_contents(u32::MAX), b"4294967295".to_vec());
    for pid in [1u32, 9, 99, 100, 65535, 65536, 999999999, 1000000000] {
        assert_eq!(pidfile_contents(pid), pid.to_string().into_bytes());
    }
}

#[test]
fn decimal_numeral_is_appended() {
    let mut text = b"pid ".to_vec();
    push_decimal(302, &mut text);
    assert_eq!(text, b"pid 302".to_vec());
    push_decimal(0, &mut text);
    assert_eq!(text, b"pid 3020".to_vec());
}

#[test]
fn arguments_hold_the_pidfile() {
    let given = CliArgs { pidfile: Some(PathBuf::from("/run/service.pid")) };
    assert_eq!(given.pidfile, Some(PathBuf::from("/run/service.pid")));
    let absent = CliArgs { pidfile: None };
    assert!(absent.pidfile.is_none());
}
