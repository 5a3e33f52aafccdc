use person_db::controller::{
    add_person, create_person, get_people_by_param, get_person_by_id, Action, ApiResponse,
    CreationEvent, CreationStage, HandlerError, LookupEvent, LookupStage, SearchParam,
};
use person_db::data_access::db::{AddPerson, Person};
use person_db::dates::BirthDate;
use person_db::ids::PersonId;
use person_db::queue::{ChunkFetch, DeliveryEvent, FetchAction, BATCH_CHUNK_SIZE};

fn request(full_name: &str) -> AddPerson {
    AddPerson {
        full_name: full_name.to_string(),
        nickname: "nick".to_string(),
        birth: BirthDate::new(1990, 1, 2).unwrap(),
        skills: Some(vec!["rust".to_string()]),
    }
}

fn person(id: u128) -> Person {
    Person::with_id(PersonId { value: id }, request("Stored"))
}

#[test]
fn add_person_refuses_oversized_request() {
    let (flow, action) = add_person(request(&"x".repeat(101)));
    assert_eq!(flow.stage, CreationStage::Finished);
    assert!(matches!(action, Action::Respond(ApiResponse::BadRequest)));
}

#[test]
fn create_person_refuses_oversized_request() {
    let (flow, action) = create_person(request(&"x".repeat(101)));
    assert_eq!(flow.stage, CreationStage::Finished);
    assert!(matches!(action, Action::Respond(ApiResponse::BadRequest)));
}

#[test]
fn add_person_inserts_then_caches_then_answers_created() {
    let (mut flow, action) = add_person(request("Ana"));
    assert_eq!(flow.stage, CreationStage::AwaitingStore);
    let inserted = match action {
        Action::InsertPerson(p) => p,
        _ => panic!("a valid request is inserted"),
    };
    assert_eq!(inserted.full_name, "Ana");
    assert_eq!(inserted.nickname, "nick");
    assert_eq!(inserted.skills, Some(vec!["rust".to_string()]));
    assert_eq!((inserted.id.value >> 76) & 0xf, 4);
    assert_eq!((inserted.id.value >> 62) & 0x3, 2);
    let id = inserted.id;
    let key = match flow.step(CreationEvent::Stored { person: inserted, json: "{\"x\":1}".to_string() }) {
        Action::StoreCache { key, value } => {
            assert_eq!(value, "{\"x\":1}");
            key
        },
        _ => panic!("a stored person is cached"),
    };
    assert_eq!(key, id.to_text());
    match flow.step(CreationEvent::Cached) {
        Action::Respond(ApiResponse::Created { location }) => {
            assert_eq!(location, format!("/people/{}", id.to_text()));
        },
        _ => panic!("a cached person is answered as created"),
    }
    assert_eq!(flow.stage, CreationStage::Finished);
}

#[test]
fn create_person_publishes() {
    let (mut flow, action) = create_person(request("Bo"));
    let published = match action {
        Action::PublishPerson(p) => p,
        _ => panic!("a valid request is published"),
    };
    assert_eq!(published.full_name, "Bo");
    assert!(matches!(flow.step(CreationEvent::StoreFailed), Action::Fail(HandlerError::Storage)));
    assert_eq!(flow.stage, CreationStage::Finished);
}

#[test]
fn creation_failures() {
    let (mut flow, _) = add_person(request("C"));
    assert!(matches!(flow.step(CreationEvent::SerializationFailed), Action::Fail(HandlerError::Serialization)));
    let (mut flow, _) = add_person(request("D"));
    let _ = flow.step(CreationEvent::Stored { person: person(9), json: "{}".to_string() });
    assert_eq!(flow.stage, CreationStage::AwaitingCache { id: PersonId { value: 9 } });
    assert!(matches!(flow.step(CreationEvent::CacheFailed), Action::Fail(HandlerError::Cache)));
    assert!(matches!(flow.step(CreationEvent::Cached), Action::Fail(HandlerError::OutOfOrder)));
}

#[test]
fn lookup_answers_cache_hit_verbatim() {
    let (mut flow, action) = get_person_by_id("anything".to_string());
    match action {
        Action::LookupCache { key } => assert_eq!(key, "anything"),
        _ => panic!("a lookup starts with the cache"),
    }
    match flow.step(LookupEvent::CacheHit { body: "{\"cached\":true}".to_string() }) {
        Action::Respond(ApiResponse::OkJson { body }) => assert_eq!(body, "{\"cached\":true}"),
        _ => panic!("a hit is answered"),
    }
    assert!(matches!(flow.stage, LookupStage::Finished));
}

#[test]
fn lookup_miss_with_invalid_id_fails() {
    let (mut flow, _) = get_person_by_id("nope".to_string());
    assert!(matches!(flow.step(LookupEvent::CacheMiss), Action::Fail(HandlerError::InvalidId)));
}

#[test]
fn lookup_miss_fetches_caches_and_answers() {
    let id = PersonId { value: 0x67e5504410b1426f9247bb680e5fe0c8 };
    let (mut flow, _) = get_person_by_id("67E55044-10B1-426F-9247-BB680E5FE0C8".to_string());
    match flow.step(LookupEvent::CacheMiss) {
        Action::FetchPerson { id: fetched } => assert_eq!(fetched, id),
        _ => panic!("a miss fetches from the database"),
    }
    match flow.step(LookupEvent::Found { person: person(id.value), json: "{\"p\":1}".to_string() }) {
        Action::StoreCache { key, value } => {
            assert_eq!(key, "67e55044-10b1-426f-9247-bb680e5fe0c8");
            assert_eq!(value, "{\"p\":1}");
        },
        _ => panic!("a found person is cached"),
    }
    match flow.step(LookupEvent::CacheWriteDone) {
        Action::Respond(ApiResponse::OkJson { body }) => assert_eq!(body, "{\"p\":1}"),
        _ => panic!("the person is answered whatever the cache did"),
    }
}

#[test]
fn lookup_fetch_failure() {
    let (mut flow, _) = get_person_by_id("00000000000000000000000000000001".to_string());
    assert!(matches!(flow.step(LookupEvent::CacheMiss), Action::FetchPerson { .. }));
    assert!(matches!(flow.step(LookupEvent::FetchFailed), Action::Fail(HandlerError::Storage)));
}

#[test]
fn location_leads_back_to_created_person() {
    let (mut flow, action) = add_person(request("Eve"));
    let inserted = match action {
        Action::InsertPerson(p) => p,
        _ => panic!("a valid request is inserted"),
    };
    let id = inserted.id;
    let _ = flow.step(CreationEvent::Stored { person: inserted, json: "{}".to_string() });
    let location = match flow.step(CreationEvent::Cached) {
        Action::Respond(ApiResponse::Created { location }) => location,
        _ => panic!("created"),
    };
    let raw = location.strip_prefix("/people/").unwrap().to_string();
    let (mut lookup, _) = get_person_by_id(raw);
    match lookup.step(LookupEvent::CacheMiss) {
        Action::FetchPerson { id: fetched } => assert_eq!(fetched, id),
        _ => panic!("the location names the created person"),
    }
}

#[test]
fn search_param_pattern() {
    let param = SearchParam::new("Ana".to_string());
    assert_eq!(param.param(), "Ana");
    assert_eq!(get_people_by_param(&param), "%Ana%");
}

#[test]
fn chunk_takes_until_full() {
    let mut fetch = ChunkFetch::new(2);
    assert_eq!(fetch.next_action(), FetchAction::Fetch);
    assert_eq!(fetch.step(DeliveryEvent::Delivered(person(1))), FetchAction::Fetch);
    assert_eq!(fetch.step(DeliveryEvent::Delivered(person(2))), FetchAction::Finish);
    let people = fetch.into_messages();
    assert_eq!(people.iter().map(|p| p.id.value).collect::<Vec<_>>(), vec![1, 2]);
}

#[test]
fn chunk_stops_on_empty_queue_or_error() {
    let mut fetch = ChunkFetch::new(BATCH_CHUNK_SIZE);
    assert_eq!(fetch.step(DeliveryEvent::Delivered(person(1))), FetchAction::Fetch);
    assert_eq!(fetch.step(DeliveryEvent::QueueEmpty), FetchAction::Finish);
    assert_eq!(fetch.next_action(), FetchAction::Finish);
    assert_eq!(fetch.into_messages().len(), 1);
    let mut fetch = ChunkFetch::new(BATCH_CHUNK_SIZE);
    assert_eq!(fetch.step(DeliveryEvent::FetchFailed), FetchAction::Finish);
    assert_eq!(fetch.into_messages().len(), 0);
}

#[test]
fn empty_chunk_size_takes_nothing() {
    let mut fetch = ChunkFetch::new(0);
    assert_eq!(fetch.next_action(), FetchAction::Finish);
    assert_eq!(fetch.step(DeliveryEvent::Delivered(person(1))), FetchAction::Finish);
    assert_eq!(fetch.into_messages().len(), 0);
}

#[test]
fn lookup_serialization_failure() {
    let (mut flow, _) = get_person_by_id("00000000-0000-0000-0000-00000000000a".to_string());
    match flow.step(LookupEvent::CacheMiss) {
        Action::FetchPerson { id } => assert_eq!(id, PersonId { value: 10 }),
        _ => panic!("a miss fetches from the database"),
    }
    assert!(matches!(flow.step(LookupEvent::SerializationFailed), Action::Fail(HandlerError::Serialization)));
    assert!(matches!(flow.step(LookupEvent::CacheWriteDone), Action::Fail(HandlerError::OutOfOrder)));
}
