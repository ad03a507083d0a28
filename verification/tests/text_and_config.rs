use vif::config::{
    default_api_host, default_api_port, default_database_url, ApiConfig, DatabaseConfig, IpAddress,
};
use vif::routes::index;
use vif::routes::search::{default_amount, default_timeout};
use vif::text::{parse_u64, u64_to_decimal};

#[test]
fn defaults_of_the_configuration() {
    assert_eq!(default_database_url(), "http://localhost:6334");
    assert_eq!(default_api_port(), 6335);
    assert_eq!(default_api_host(), vec![IpAddress::V6(0)]);
    let db = DatabaseConfig::default();
    assert_eq!(db.url, "http://localhost:6334");
    let api = ApiConfig::default();
    assert_eq!(api.host, vec![IpAddress::V6(0)]);
    assert_eq!(api.port, 6335);
}

#[test]
fn defaults_of_the_routes() {
    assert_eq!(default_amount(), 100);
    assert_eq!(default_timeout(), 10);
    assert_eq!(index::default_timeout(), 10);
}

#[test]
fn decimal_spelling() {
    assert_eq!(u64_to_decimal(0), "0");
    assert_eq!(u64_to_decimal(7), "7");
    assert_eq!(u64_to_decimal(429), "429");
    assert_eq!(u64_to_decimal(u64::MAX), "18446744073709551615");
}

#[test]
fn parsing_numbers_as_std_does() {
    for s in ["", "+", "-", "-1", " 1", "1 ", "1.0", "abc", "18446744073709551616", "99999999999999999999", "١"] {
        assert_eq!(parse_u64(s), s.parse::<u64>().ok(), "{s:?}");
        assert_eq!(parse_u64(s), None);
    }
    for s in ["0", "+0", "10", "+42", "007", "18446744073709551615"] {
        assert_eq!(parse_u64(s), s.parse::<u64>().ok(), "{s:?}");
    }
    assert_eq!(parse_u64("+42"), Some(42));
}

#[test]
fn decimal_reads_back() {
    for n in [0u64, 1, 9, 10, 99, 100, 12345, u64::MAX - 1, u64::MAX] {
        assert_eq!(parse_u64(&u64_to_decimal(n)), Some(n));
    }
}
