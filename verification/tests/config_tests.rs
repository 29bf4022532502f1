use prosody::config::{
    dedup_cache_capacity, loader_configured, parse_mode, probe_port_from, probe_port_setting,
    whole_number_field, Mode, NumberArg, ProbePort, ProbePortArg,
};

#[test]
fn modes() {
    assert_eq!(parse_mode(&None), Ok(Mode::Pipeline));
    assert_eq!(parse_mode(&Some("pipeline".into())), Ok(Mode::Pipeline));
    assert_eq!(parse_mode(&Some("low_latency".into())), Ok(Mode::LowLatency));
    assert_eq!(parse_mode(&Some("best_effort".into())), Ok(Mode::BestEffort));
    assert_eq!(parse_mode(&Some("fast".into())), Err("unrecognized mode: fast".to_string()));
}

#[test]
fn probe_ports() {
    assert_eq!(probe_port_from(ProbePortArg::Port(8080)), ProbePort::Configured(8080));
    assert_eq!(probe_port_from(ProbePortArg::Flag(false)), ProbePort::Disabled);
    assert_eq!(probe_port_from(ProbePortArg::Flag(true)), ProbePort::Unconfigured);
    assert_eq!(probe_port_from(ProbePortArg::Unit), ProbePort::Unconfigured);
    assert_eq!(probe_port_setting(None), None);
    assert_eq!(probe_port_setting(Some(ProbePort::Unconfigured)), None);
    assert_eq!(probe_port_setting(Some(ProbePort::Disabled)), Some(None));
    assert_eq!(probe_port_setting(Some(ProbePort::Configured(9000))), Some(Some(9000)));
}

#[test]
fn zero_dedup_cache_is_rejected() {
    assert_eq!(
        dedup_cache_capacity(Some(0)),
        Err("idempotence_cache_size must be greater than 0".to_string())
    );
    assert_eq!(dedup_cache_capacity(Some(4096)), Ok(Some(4096)));
    assert_eq!(dedup_cache_capacity(None), Ok(None));
}

#[test]
fn loader_knobs() {
    assert!(!loader_configured(false, false, false));
    assert!(loader_configured(false, true, false));
    assert!(loader_configured(true, true, true));
}

#[test]
fn whole_numbers_within_bounds() {
    assert_eq!(whole_number_field(NumberArg::Whole(5), "f", 1, 10), Ok(5));
    assert_eq!(whole_number_field(NumberArg::Whole(1), "f", 1, 10), Ok(1));
    assert_eq!(whole_number_field(NumberArg::Whole(10), "f", 1, 10), Ok(10));
    assert_eq!(
        whole_number_field(NumberArg::Whole(0), "ttl", 1, 4294967295),
        Err("ttl: must be a whole number in 1..=4294967295".to_string())
    );
    assert_eq!(
        whole_number_field(NumberArg::Whole(-3), "x", 0, 4096),
        Err("x: must be a whole number in 0..=4096".to_string())
    );
    assert_eq!(
        whole_number_field(NumberArg::NotWhole, "x", 0, 4096),
        Err("x: must be a whole number in 0..=4096".to_string())
    );
}
