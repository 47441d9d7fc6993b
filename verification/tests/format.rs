use query_execute_state::date_serializer::v_to_string;
use query_execute_state::date_serializer::write_csv_string;
use query_execute_state::date_serializer::write_escaped_string;
use query_execute_state::date_serializer::write_json_string;
use query_execute_state::date_serializer::DateSerializer;
use query_execute_state::date_serializer::FormatSettings;
use query_execute_state::date_serializer::DATE_MAX_DAYS;
use query_execute_state::date_serializer::DATE_MIN_DAYS;
use query_execute_state::error::ErrorCode;
use query_execute_state::grant::check_grant_object;
use query_execute_state::grant::GrantObject;
use query_execute_state::grant::GrantPrivilegePlan;
use query_execute_state::grant::GrantPrivilegeInterpreter;
use query_execute_state::meta_auth::check_token_present;
use query_execute_state::meta_auth::handshake_auth;

fn settings() -> FormatSettings {
    FormatSettings { quote_char: b'\'', nested_quote_char: b'\'' }
}

#[test]
fn date_text_of_known_days() {
    assert_eq!(v_to_string(&0), "1970-01-01");
    assert_eq!(v_to_string(&-1), "1969-12-31");
    assert_eq!(v_to_string(&18993), "2022-01-01");
    assert_eq!(v_to_string(&DATE_MIN_DAYS), "0001-01-01");
    assert_eq!(v_to_string(&DATE_MAX_DAYS), "9999-12-31");
}

#[test]
fn serializer_formats_rows() {
    let s = DateSerializer::try_create(vec![0, 18993, -1]).unwrap();
    assert_eq!(s.fmt(0), "1970-01-01");
    assert_eq!(s.fmt(1), "2022-01-01");
    assert_eq!(s.fmt(2), "1969-12-31");
}

#[test]
fn field_writers_quote_and_escape() {
    let s = DateSerializer::try_create(vec![18993]).unwrap();
    let f = settings();

    let mut buf = Vec::new();
    s.write_field_values(0, &mut buf, &f, true);
    assert_eq!(buf, b"'2022-01-01'".to_vec());

    let mut buf = Vec::new();
    s.write_field_values(0, &mut buf, &f, false);
    assert_eq!(buf, b"2022-01-01".to_vec());

    let mut buf = Vec::new();
    s.write_field_tsv(0, &mut buf, &f, true);
    assert_eq!(buf, b"'2022-01-01'".to_vec());

    let mut buf = Vec::new();
    s.write_field_csv(0, &mut buf, &f);
    assert_eq!(buf, b"'2022-01-01'".to_vec());

    let mut buf = Vec::new();
    s.write_field_json(0, &mut buf, &f, true);
    assert_eq!(buf, b"\"2022-01-01\"".to_vec());

    let mut buf = Vec::new();
    s.write_field_json(0, &mut buf, &f, false);
    assert_eq!(buf, b"2022-01-01".to_vec());
}

#[test]
fn escaped_string_escapes_specials() {
    let mut buf = Vec::new();
    write_escaped_string(b"a'b\\c\nd\re\tf", &mut buf, b'\'');
    assert_eq!(buf, b"a\\'b\\\\c\\nd\\re\\tf".to_vec());
}

#[test]
fn csv_string_doubles_quotes() {
    let mut buf = Vec::new();
    write_csv_string(b"a\"b", &mut buf, b'"');
    assert_eq!(buf, b"\"a\"\"b\"".to_vec());
}

#[test]
fn json_string_escapes_specials() {
    let mut buf = Vec::new();
    write_json_string(b"a\"b\\c\nd", &mut buf);
    assert_eq!(buf, b"a\\\"b\\\\c\\nd".to_vec());
}

#[test]
fn json_values_are_the_date_texts() {
    let s = DateSerializer::try_create(vec![0, 18993]).unwrap();
    let texts = s.serialize_json_values(&settings()).unwrap();
    assert_eq!(texts, vec!["1970-01-01".to_string(), "2022-01-01".to_string()]);
}

#[test]
fn grant_target_validation() {
    assert_eq!(check_grant_object(&GrantObject::Global, false, false), Ok(()));
    assert_eq!(check_grant_object(&GrantObject::Database("db1".to_string()), true, false), Ok(()));
    assert_eq!(
        check_grant_object(&GrantObject::Database("db1".to_string()), false, false),
        Err(ErrorCode::UnknownDatabase("db1".to_string()))
    );
    assert_eq!(
        check_grant_object(&GrantObject::Table("db1".to_string(), "t".to_string()), false, true),
        Ok(())
    );
    assert_eq!(
        check_grant_object(&GrantObject::Table("db1".to_string(), "t".to_string()), true, false),
        Err(ErrorCode::UnknownTable("db1".to_string(), "t".to_string()))
    );
}

#[test]
fn grant_interpreter_carries_its_plan() {
    let plan = GrantPrivilegePlan {
        name: "u1".to_string(),
        hostname: "%".to_string(),
        priv_types: 0b101,
        on: GrantObject::Global,
    };
    let interp = GrantPrivilegeInterpreter::try_create(plan).unwrap();
    assert_eq!(interp.name(), "GrantPrivilegeInterpreter");
    assert_eq!(interp.plan.name, "u1");
    assert_eq!(interp.plan.priv_types, 0b101);
}

#[test]
fn error_messages() {
    assert_eq!(ErrorCode::AbortedQuery.message(), "query aborted");
    assert_eq!(
        ErrorCode::UnknownTable("db1".to_string(), "t".to_string()).message(),
        "table db1.t not exists"
    );
    assert_eq!(
        ErrorCode::UnknownDatabase("db1".to_string()).message(),
        "database db1 not exists"
    );
    assert_eq!(ErrorCode::Unauthenticated("alice".to_string()).message(), "Unauthenticated: alice");
    assert_eq!(ErrorCode::UnknownException("boom".to_string()).message(), "boom");
}

#[test]
fn handshake_accepts_only_root() {
    let claim = handshake_auth("root").unwrap();
    assert_eq!(claim.username, "root");
    match handshake_auth("alice") {
        Err(ErrorCode::Unauthenticated(who)) => assert_eq!(who, "alice"),
        _ => panic!("non-root users must be refused"),
    }
}

#[test]
fn missing_token_is_refused() {
    assert_eq!(check_token_present(Some("tok".to_string())), Ok("tok".to_string()));
    match check_token_present(None) {
        Err(ErrorCode::Unauthenticated(m)) => assert_eq!(m, "Error auth-token-bin is empty"),
        _ => panic!("a missing token must be refused"),
    }
}
