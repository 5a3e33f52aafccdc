use person_db::controller::{get_count_people, validate_payload, ApiResponse};
use person_db::data_access::db::{
    bulk_insert_payload, parse_people_to_csv, parse_vec_to_pg_vec, search_pattern, AddPerson,
    Person,
};
use person_db::data_access::warmup_jobs::{
    warm_up_payload, warm_up_payloads, warm_up_url, WARM_UP_REQUESTS,
};
use person_db::dates::BirthDate;
use person_db::ids::PersonId;

fn request(full_name: &str, nickname: &str, skills: Option<Vec<&str>>) -> AddPerson {
    AddPerson {
        full_name: full_name.to_string(),
        nickname: nickname.to_string(),
        birth: BirthDate::new(1990, 5, 17).unwrap(),
        skills: skills.map(|v| v.into_iter().map(|s| s.to_string()).collect()),
    }
}

fn is_bad_request(response: Option<ApiResponse>) -> bool {
    matches!(response, Some(ApiResponse::BadRequest))
}

#[test]
fn payload_within_limits_is_accepted() {
    let name = "a".repeat(100);
    let nick = "b".repeat(32);
    let skill = "c".repeat(32);
    assert!(validate_payload(&request(&name, &nick, Some(vec![skill.as_str()]))).is_none());
}

#[test]
fn full_name_over_limit_is_refused() {
    let name = "a".repeat(101);
    assert!(is_bad_request(validate_payload(&request(&name, "nick", None))));
}

#[test]
fn nickname_over_limit_is_refused() {
    let nick = "b".repeat(33);
    assert!(is_bad_request(validate_payload(&request("name", &nick, None))));
}

#[test]
fn skill_over_limit_is_refused() {
    let skill = "c".repeat(33);
    assert!(is_bad_request(validate_payload(&request("name", "nick", Some(vec!["ok", skill.as_str()])))));
}

#[test]
fn limits_count_bytes_not_characters() {
    // 17 two-byte characters: 17 characters, 34 bytes.
    let nick = "é".repeat(17);
    assert!(is_bad_request(validate_payload(&request("name", &nick, None))));
    let nick = "é".repeat(16);
    assert!(validate_payload(&request("name", &nick, None)).is_none());
}

#[test]
fn pg_array_of_no_skills() {
    assert_eq!(parse_vec_to_pg_vec(&None), "{}");
    assert_eq!(parse_vec_to_pg_vec(&Some(vec![])), "{}");
}

#[test]
fn pg_array_doubles_quotes() {
    let skills = Some(vec!["rust".to_string(), "o'caml".to_string(), "''".to_string()]);
    assert_eq!(parse_vec_to_pg_vec(&skills), "{rust,o''caml,''''}");
}

#[test]
fn pg_array_single_skill() {
    assert_eq!(parse_vec_to_pg_vec(&Some(vec!["go".to_string()])), "{go}");
}

fn person(id: u128, name: &str, skills: Option<Vec<&str>>) -> Person {
    Person::with_id(PersonId { value: id }, request(name, "nick", skills))
}

#[test]
fn csv_line_format() {
    let p = person(0x67e5504410b1426f9247bb680e5fe0c8, "Ana Maria", Some(vec!["a", "b"]));
    assert_eq!(
        parse_people_to_csv(&[p]),
        "67e55044-10b1-426f-9247-bb680e5fe0c8\tAna Maria\tnick\t1990-05-17\t{a,b}\n"
    );
}

#[test]
fn csv_of_several_people() {
    let people = vec![person(1, "A", None), person(2, "B", Some(vec![]))];
    assert_eq!(
        parse_people_to_csv(&people),
        "00000000-0000-0000-0000-000000000001\tA\tnick\t1990-05-17\t{}\n\
         00000000-0000-0000-0000-000000000002\tB\tnick\t1990-05-17\t{}\n"
    );
}

#[test]
fn csv_of_batches_concatenates() {
    let all = vec![person(1, "A", None), person(2, "B", None), person(3, "C", Some(vec!["x"]))];
    let first = vec![person(1, "A", None)];
    let rest = vec![person(2, "B", None), person(3, "C", Some(vec!["x"]))];
    assert_eq!(
        parse_people_to_csv(&all),
        parse_people_to_csv(&first) + &parse_people_to_csv(&rest)
    );
}

#[test]
fn bulk_insert_of_nobody_sends_nothing() {
    assert!(bulk_insert_payload(&[]).is_none());
}

#[test]
fn bulk_insert_sends_csv() {
    let people = vec![person(5, "E", None)];
    assert_eq!(bulk_insert_payload(&people), Some(parse_people_to_csv(&people)));
}

#[test]
fn search_pattern_wraps_in_wildcards() {
    assert_eq!(search_pattern("ana"), "%ana%");
    assert_eq!(search_pattern(""), "%%");
}

#[test]
fn count_body() {
    match get_count_people(46) {
        ApiResponse::OkText { body } => assert_eq!(body, "46"),
        _ => panic!("count is answered with a plain body"),
    }
    match get_count_people(0) {
        ApiResponse::OkText { body } => assert_eq!(body, "0"),
        _ => panic!("count is answered with a plain body"),
    }
    match get_count_people(i64::MIN) {
        ApiResponse::OkText { body } => assert_eq!(body, "-9223372036854775808"),
        _ => panic!("count is answered with a plain body"),
    }
}

#[test]
fn warm_up_requests() {
    assert_eq!(WARM_UP_REQUESTS, 511);
    assert_eq!(warm_up_url("localhost:8080", "people"), "http://localhost:8080/people");
    let payload = warm_up_payload(510);
    assert_eq!(payload.full_name, "WARMUP_DATA::#510");
    assert_eq!(payload.nickname, "WARMUP_DATA");
    assert_eq!(payload.birth.to_text(), "2000-01-01");
    assert_eq!(payload.skills, Some(vec!["skill1".to_string(), "skill2".to_string()]));
    assert!(validate_payload(&payload).is_none());
}

#[test]
fn warm_up_burst_has_one_payload_per_index() {
    let payloads = warm_up_payloads();
    assert_eq!(payloads.len(), 511);
    for (i, payload) in payloads.iter().enumerate() {
        assert_eq!(payload.full_name, format!("WARMUP_DATA::#{}", i));
        assert_eq!(payload.nickname, "WARMUP_DATA");
        assert!(validate_payload(payload).is_none());
    }
}

#[test]
fn pg_array_splits_back() {
    let skills = vec!["rust".to_string(), "".to_string(), "go lang".to_string()];
    let literal = parse_vec_to_pg_vec(&Some(skills.clone()));
    assert!(literal.starts_with('{') && literal.ends_with('}'));
    let inner = &literal[1..literal.len() - 1];
    assert_eq!(inner.split(',').map(String::from).collect::<Vec<_>>(), skills);
}
