use person_db::dates::BirthDate;
use person_db::ids::PersonId;

#[test]
fn id_text_is_lowercase_hyphenated() {
    let id = PersonId { value: 0xA1A2A3A4B1B2C1C2D1D2D3D4D5D6D7D8 };
    assert_eq!(id.to_text(), "a1a2a3a4-b1b2-c1c2-d1d2-d3d4d5d6d7d8");
}

#[test]
fn id_text_reads_back() {
    for value in [0u128, 1, u128::MAX, 0x67e5504410b1426f9247bb680e5fe0c8] {
        let id = PersonId { value };
        assert_eq!(PersonId::parse(&id.to_text()), Ok(id));
    }
}

#[test]
fn id_parse_accepts_every_form() {
    let expected = Ok(PersonId { value: 0x67e5504410b1426f9247bb680e5fe0c8 });
    assert_eq!(PersonId::parse("67e55044-10b1-426f-9247-bb680e5fe0c8"), expected);
    assert_eq!(PersonId::parse("67E55044-10B1-426F-9247-BB680E5FE0C8"), expected);
    assert_eq!(PersonId::parse("67e5504410b1426f9247bb680e5fe0c8"), expected);
    assert_eq!(PersonId::parse("{67e55044-10b1-426f-9247-bb680e5fe0c8}"), expected);
    assert_eq!(PersonId::parse("URN:uuid:67e55044-10b1-426f-9247-bb680e5fe0c8"), expected);
}

#[test]
fn id_parse_refuses_other_texts() {
    assert!(PersonId::parse("").is_err());
    assert!(PersonId::parse("not-a-uuid").is_err());
    assert!(PersonId::parse("67e55044-10b1-426f-9247-bb680e5fe0c").is_err());
    assert!(PersonId::parse("67e55044x10b1-426f-9247-bb680e5fe0c8").is_err());
    assert!(PersonId::parse("g7e55044-10b1-426f-9247-bb680e5fe0c8").is_err());
}

#[test]
fn new_ids_are_version_4() {
    let a = PersonId::new_random();
    let b = PersonId::new_random();
    assert_ne!(a, b);
    assert_eq!((a.value >> 76) & 0xf, 4);
    assert_eq!((a.value >> 62) & 0x3, 2);
    assert_eq!(a.to_text().chars().nth(14), Some('4'));
}

#[test]
fn dates_that_exist() {
    assert!(BirthDate::new(2000, 2, 29).is_some());
    assert!(BirthDate::new(2024, 12, 31).is_some());
    assert!(BirthDate::new(-4, 2, 29).is_some());
}

#[test]
fn dates_that_do_not_exist() {
    assert!(BirthDate::new(1900, 2, 29).is_none());
    assert!(BirthDate::new(2023, 4, 31).is_none());
    assert!(BirthDate::new(2023, 0, 1).is_none());
    assert!(BirthDate::new(2023, 13, 1).is_none());
    assert!(BirthDate::new(2023, 1, 0).is_none());
    assert!(BirthDate::new(262143, 1, 1).is_none());
    assert!(BirthDate::new(-262144, 1, 1).is_none());
    assert!(BirthDate::new(262142, 12, 31).is_some());
    assert!(BirthDate::new(-262143, 1, 1).is_some());
}

#[test]
fn date_text_forms() {
    assert_eq!(BirthDate::new(1990, 5, 7).unwrap().to_text(), "1990-05-07");
    assert_eq!(BirthDate::new(7, 1, 1).unwrap().to_text(), "0007-01-01");
    assert_eq!(BirthDate::new(10000, 1, 1).unwrap().to_text(), "+10000-01-01");
    assert_eq!(BirthDate::new(-1, 12, 31).unwrap().to_text(), "-0001-12-31");
}

#[test]
fn date_numbers() {
    let date = BirthDate::new(1985, 11, 3).unwrap();
    assert_eq!((date.year(), date.month(), date.day()), (1985, 11, 3));
}
