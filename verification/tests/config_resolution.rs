use teapot_fortune::config::{
    parse_u16, resolve_config, resolve_listen_port, resolve_status_code, resolve_storage_location,
    Source, DEFAULT_MAX_FETCH_ATTEMPTS, DEFAULT_MAX_ID_FALLBACK,
};

#[test]
fn defaults_when_nothing_is_set() {
    let report = resolve_config(None, None, None);
    assert_eq!(report.config.status_code, 418);
    assert_eq!(report.config.storage_location, "./data/copypastas.sqlite");
    assert_eq!(report.config.listen_port, 6757);
    assert_eq!(report.config.max_id_fallback, DEFAULT_MAX_ID_FALLBACK);
    assert_eq!(report.config.max_fetch_attempts, DEFAULT_MAX_FETCH_ATTEMPTS);
    assert_eq!(report.status_source, Source::DefaultMissing);
    assert_eq!(report.location_source, Source::DefaultMissing);
    assert_eq!(report.port_source, Source::DefaultMissing);
}

#[test]
fn supplied_status_with_malformed_port() {
    let report = resolve_config(Some("404"), None, Some("abc"));
    assert_eq!(report.config.status_code, 404);
    assert_eq!(report.config.listen_port, 6757);
    assert_eq!(report.status_source, Source::Environment);
    assert_eq!(report.port_source, Source::DefaultMalformed);
}

#[test]
fn supplied_location_is_taken_verbatim() {
    let (location, source) = resolve_storage_location(Some(String::from("/srv/fortunes.sqlite")));
    assert_eq!(location, "/srv/fortunes.sqlite");
    assert_eq!(source, Source::Environment);
}

#[test]
fn status_code_out_of_range_falls_back() {
    let (code, source) = resolve_status_code(Some("42"));
    assert_eq!(code, 418);
    assert_eq!(source, Source::DefaultMalformed);
    let (code, source) = resolve_status_code(Some("600"));
    assert_eq!(code, 418);
    assert_eq!(source, Source::DefaultMalformed);
}

#[test]
fn status_code_range_bounds_accepted() {
    let (code, source) = resolve_status_code(Some("100"));
    assert_eq!(code, 100);
    assert_eq!(source, Source::Environment);
    let (code, source) = resolve_status_code(Some("599"));
    assert_eq!(code, 599);
    assert_eq!(source, Source::Environment);
}

#[test]
fn malformed_status_code_falls_back() {
    let (code, source) = resolve_status_code(Some("teapot"));
    assert_eq!(code, 418);
    assert_eq!(source, Source::DefaultMalformed);
}

#[test]
fn port_accepts_any_sixteen_bit_value() {
    let (port, source) = resolve_listen_port(Some("0"));
    assert_eq!(port, 0);
    assert_eq!(source, Source::Environment);
    let (port, source) = resolve_listen_port(Some("65535"));
    assert_eq!(port, 65535);
    assert_eq!(source, Source::Environment);
}

#[test]
fn parse_u16_accepts_plain_and_signed_decimals() {
    assert_eq!(parse_u16("0"), Some(0));
    assert_eq!(parse_u16("418"), Some(418));
    assert_eq!(parse_u16("+6757"), Some(6757));
    assert_eq!(parse_u16("65535"), Some(65535));
    assert_eq!(parse_u16("0000000000418"), Some(418));
}

#[test]
fn parse_u16_rejects_what_does_not_fit() {
    assert_eq!(parse_u16(""), None);
    assert_eq!(parse_u16("+"), None);
    assert_eq!(parse_u16("-1"), None);
    assert_eq!(parse_u16("65536"), None);
    assert_eq!(parse_u16("99999999999999999999"), None);
    assert_eq!(parse_u16(" 418"), None);
    assert_eq!(parse_u16("418 "), None);
    assert_eq!(parse_u16("4a8"), None);
    assert_eq!(parse_u16("abc"), None);
}

#[test]
fn parse_u16_matches_standard_parsing() {
    for raw in ["0", "418", "+6757", "65535", "65536", "", "+", "-3", "12x", "007"] {
        assert_eq!(parse_u16(raw), raw.parse::<u16>().ok(), "input {raw:?}");
    }
}
