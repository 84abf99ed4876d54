use sshm::profile::{parse_port, Profile, Summary, DEFAULT_PORT};

fn sample() -> Profile {
    Profile {
        id: 3,
        name: "box".to_string(),
        host: "10.0.0.1".to_string(),
        port: 2222,
        username: "root".to_string(),
        password: "secret".to_string(),
    }
}

#[test]
fn default_port_is_22() {
    assert_eq!(DEFAULT_PORT, 22);
}

#[test]
fn port_of_empty_text_is_the_default() {
    assert_eq!(parse_port(""), 22);
}

#[test]
fn port_of_text_without_number_is_the_default() {
    assert_eq!(parse_port("abc"), 22);
    assert_eq!(parse_port("22a"), 22);
    assert_eq!(parse_port("2 2"), 22);
    assert_eq!(parse_port(" 80"), 22);
    assert_eq!(parse_port("80 "), 22);
    assert_eq!(parse_port("8.0"), 22);
    assert_eq!(parse_port("+"), 22);
    assert_eq!(parse_port("++80"), 22);
    assert_eq!(parse_port("８０"), 22);
}

#[test]
fn port_of_digits_is_their_number() {
    assert_eq!(parse_port("2222"), 2222);
    assert_eq!(parse_port("22"), 22);
    assert_eq!(parse_port("1"), 1);
    assert_eq!(parse_port("0080"), 80);
    assert_eq!(parse_port("65535"), 65535);
    assert_eq!(parse_port("2147483647"), i32::MAX);
}

#[test]
fn port_may_have_a_plus_before_it() {
    assert_eq!(parse_port("+8022"), 8022);
    assert_eq!(parse_port("+1"), 1);
}

#[test]
fn port_is_always_positive() {
    assert_eq!(parse_port("0"), 22);
    assert_eq!(parse_port("+0"), 22);
    assert_eq!(parse_port("-0"), 22);
    assert_eq!(parse_port("-5"), 22);
    assert_eq!(parse_port("-2222"), 22);
}

#[test]
fn port_beyond_i32_is_the_default() {
    assert_eq!(parse_port("2147483648"), 22);
    assert_eq!(parse_port("99999999999"), 22);
}

#[test]
fn duplicate_is_equal() {
    let profile = sample();
    assert_eq!(profile.duplicate(), profile);
}

#[test]
fn summary_leaves_the_password_out() {
    assert_eq!(
        sample().summary(),
        Summary {
            id: 3,
            name: "box".to_string(),
            host: "10.0.0.1".to_string(),
            port: 2222,
            username: "root".to_string(),
        }
    );
}
