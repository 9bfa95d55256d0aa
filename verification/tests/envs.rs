use playground::envs::{Env, Error};
use playground::numbers::{i64_to_string, parse_u16, u64_to_string};
use playground::services::get_redis_uri;

#[test]
fn port_is_read_as_a_16_bit_number() {
    assert_eq!(Env::get_port(Some("8080".to_string())), Ok(8080));
    assert_eq!(Env::get_port(Some("+80".to_string())), Ok(80));
    assert_eq!(Env::get_port(Some("0065535".to_string())), Ok(65535));
    assert_eq!(Env::get_port(Some("65536".to_string())), Err(Error::WrongFormat("PORT")));
    assert_eq!(Env::get_port(Some("80a".to_string())), Err(Error::WrongFormat("PORT")));
    assert_eq!(Env::get_port(Some(" 80".to_string())), Err(Error::WrongFormat("PORT")));
    assert_eq!(Env::get_port(Some("-1".to_string())), Err(Error::WrongFormat("PORT")));
    assert_eq!(Env::get_port(Some("+".to_string())), Err(Error::WrongFormat("PORT")));
    assert_eq!(Env::get_port(Some(String::new())), Err(Error::WrongFormat("PORT")));
    assert_eq!(Env::get_port(None), Err(Error::MissingEnv("PORT")));
    assert_eq!(Env::get_env_parse("WORKERS", Some("4".to_string())), Ok(4));
}

#[test]
fn parsing_agrees_with_the_standard_library() {
    for text in ["0", "1", "09", "+7", "+", "-0", "", "65535", "65536", "123456789", "1 ", "\u{665}"] {
        assert_eq!(parse_u16(text), text.parse::<u16>().ok(), "{text}");
    }
    for n in [0u16, 1, 9, 10, 99, 100, 8080, 65535] {
        assert_eq!(parse_u16(&u64_to_string(n as u64)), Some(n));
    }
}

#[test]
fn decimal_text_agrees_with_the_standard_library() {
    for n in [0u64, 7, 10, 1234567890, u64::MAX] {
        assert_eq!(u64_to_string(n), n.to_string());
    }
    for n in [0i64, -1, 42, -259200, i64::MIN, i64::MAX] {
        assert_eq!(i64_to_string(n), n.to_string());
    }
}

#[test]
fn text_settings() {
    assert_eq!(Env::get_postgres(Some("postgres://db".to_string())), Ok("postgres://db".to_string()));
    assert_eq!(Env::get_postgres(None), Err(Error::MissingEnv("DATABASE_URL")));
    assert_eq!(Env::get_redis(None), Err(Error::MissingEnv("REDIS_HOST")));
    assert_eq!(Env::get_mongo(None), Err(Error::MissingEnv("MONGO_URI")));
    assert_eq!(Env::get_mongo(Some("m".to_string())), Ok("m".to_string()));
    assert_eq!(Env::get_env("X", Some("v".to_string())), Ok("v".to_string()));
    assert_eq!(get_redis_uri(Some("redis://h".to_string())), "redis://h");
}

#[test]
fn listening_address() {
    assert_eq!(Env::get_url(Some("3000".to_string())), "0.0.0.0:3000");
    assert_eq!(Env::get_url(Some("+0".to_string())), "0.0.0.0:0");
}

#[test]
fn error_text() {
    assert_eq!(Error::MissingEnv("PORT").to_string(), "MissingEnv(\"PORT\")");
    assert_eq!(Error::WrongFormat("PORT").to_string(), "WrongFormat(\"PORT\")");
}

#[test]
fn error_text_escapes_the_name() {
    assert_eq!(Error::MissingEnv("A\"B").to_string(), "MissingEnv(\"A\\\"B\")");
    assert_eq!(Error::WrongFormat("x\ny").to_string(), "WrongFormat(\"x\\ny\")");
    assert_eq!(Error::MissingEnv("").to_string(), "MissingEnv(\"\")");
}

#[test]
fn settings_of_any_type() {
    assert_eq!(Env::get_env_parsed::<i64>("N", None), Err(Error::MissingEnv("N")));
    assert_eq!(Env::get_env_parsed::<i64>("N", Some(None)), Err(Error::WrongFormat("N")));
    assert_eq!(Env::get_env_parsed("N", Some(Some(-3i64))), Ok(-3));
    assert_eq!(Env::get_env_parsed("B", Some("true".parse::<bool>().ok())), Ok(true));
}
