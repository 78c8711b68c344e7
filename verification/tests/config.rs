use isupipe::config::{build_mysql_options, port_from, MysqlEnvironment, MysqlOptions};

fn nothing_set() -> MysqlEnvironment {
    MysqlEnvironment { address: None, port: None, user: None, password: None, database: None }
}

#[test]
fn the_defaults_reach_the_local_store() {
    assert_eq!(
        build_mysql_options(nothing_set()),
        MysqlOptions {
            host: "127.0.0.1".to_owned(),
            port: 3306,
            username: "isucon".to_owned(),
            password: "isucon".to_owned(),
            database: "isupipe".to_owned(),
        }
    );
}

#[test]
fn the_environment_replaces_the_defaults() {
    let environment = MysqlEnvironment {
        address: Some("db.internal".to_owned()),
        port: Some("13306".to_owned()),
        user: Some("app".to_owned()),
        password: Some("secret words".to_owned()),
        database: Some("pipe".to_owned()),
    };
    assert_eq!(
        build_mysql_options(environment),
        MysqlOptions {
            host: "db.internal".to_owned(),
            port: 13306,
            username: "app".to_owned(),
            password: "secret words".to_owned(),
            database: "pipe".to_owned(),
        }
    );
}

#[test]
fn a_port_that_is_no_port_number_is_passed_over() {
    for text in ["", "mysql", "65536", "-1", "33 06"] {
        let environment = MysqlEnvironment { port: Some(text.to_owned()), ..nothing_set() };
        assert_eq!(build_mysql_options(environment).port, 3306);
    }
    let highest = MysqlEnvironment { port: Some("65535".to_owned()), ..nothing_set() };
    assert_eq!(build_mysql_options(highest).port, 65535);
}

#[test]
fn the_port_follows_from_what_its_text_parses_to() {
    assert_eq!(port_from(&None, Some(1)), 3306);
    assert_eq!(port_from(&None, None), 3306);
    assert_eq!(port_from(&Some("x".to_owned()), None), 3306);
    assert_eq!(port_from(&Some("8".to_owned()), Some(8)), 8);
}

#[test]
fn a_port_may_carry_a_plus_sign_and_leading_zeros() {
    for (text, port) in [("+8080", 8080), ("0080", 80), ("0", 0)] {
        let environment = MysqlEnvironment { port: Some(text.to_owned()), ..nothing_set() };
        assert_eq!(build_mysql_options(environment).port, port);
    }
    let signed = MysqlEnvironment { port: Some("-0".to_owned()), ..nothing_set() };
    assert_eq!(build_mysql_options(signed).port, 3306);
}
