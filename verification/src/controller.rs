//! Decisions of the HTTP handlers. Each handler that talks to the database,
//! the queue or the cache is a small state machine: the caller performs the
//! returned `Action` and feeds back what came of it as an event.

use vstd::prelude::*;
use vstd::string::*;
use vstd::utf8::encode_utf8;

use crate::data_access::db::{person_from_request, search_pattern, AddPerson, Person};
use crate::ids::{is_fresh_v4, lemma_id_text_reads_back, uuid_parse, PersonId};
use crate::text::{decimal, lemma_concat_parts, push_char, push_decimal};

verus! {

/// Longest accepted full name, in UTF-8 bytes.
pub const MAX_FULL_NAME_BYTES: usize = 100;

/// Longest accepted nickname, in UTF-8 bytes.
pub const MAX_NICKNAME_BYTES: usize = 32;

/// Longest accepted skill, in UTF-8 bytes.
pub const MAX_SKILL_BYTES: usize = 32;

/// How long a cached person stays in the cache, in seconds.
pub const CACHE_TTL_SECONDS: i64 = 300;

/// Length of the UTF-8 encoding of a text, as `str::len` reports it.
pub open spec fn byte_len(s: Seq<char>) -> usize {
    encode_utf8(s).len() as usize
}

/// A registration request within the size limits of every field.
pub open spec fn payload_is_valid(p: AddPerson) -> bool {
    &&& byte_len(p.full_name@) <= MAX_FULL_NAME_BYTES
    &&& byte_len(p.nickname@) <= MAX_NICKNAME_BYTES
    &&& match p.skills.deep_view() {
        Some(stack) => forall|i: int| 0 <= i < stack.len() ==> byte_len(#[trigger] stack[i]) <= MAX_SKILL_BYTES,
        None => true,
    }
}

/// `/people/<id>`, where a created person can be read.
pub open spec fn person_location(id: PersonId) -> Seq<char> {
    "/people/"@ + id.text()
}

/// The HTTP answer of a handler.
pub enum ApiResponse {
    /// 400 with an empty body.
    BadRequest,
    /// 201 with a `Path` header naming where the person can be read.
    Created { location: String },
    /// 200 with a JSON body.
    OkJson { body: String },
    /// 200 with a plain body.
    OkText { body: String },
}

/// Why a handler gave up (answered as a server error).
#[derive(Clone, Copy, PartialEq, Eq, Structural, Debug)]
pub enum HandlerError {
    /// The database or the queue refused the person.
    Storage,
    /// The person could not be rendered as JSON.
    Serialization,
    /// The cache refused the person.
    Cache,
    /// The requested id is no UUID.
    InvalidId,
    /// An event arrived that the current stage does not expect.
    OutOfOrder,
}

/// What the handler asks its caller to do next.
pub enum Action {
    /// Answer the request; the handler is done.
    Respond(ApiResponse),
    /// Give up with a server error; the handler is done.
    Fail(HandlerError),
    /// Insert the person into the database.
    InsertPerson(Person),
    /// Publish the person on the creation queue.
    PublishPerson(Person),
    /// Read the cached JSON stored under `key`.
    LookupCache { key: String },
    /// Read the person with this id from the database.
    FetchPerson { id: PersonId },
    /// Cache `value` under `key` for `CACHE_TTL_SECONDS`.
    StoreCache { key: String, value: String },
}

/// Checks the size limits of a registration request; a request that breaks
/// one is answered with 400.
pub fn validate_payload(payload: &AddPerson) -> (response: Option<ApiResponse>)
    ensures
        response is None <==> payload_is_valid(*payload),
        response is Some ==> response == Some(ApiResponse::BadRequest),
{
    if payload.full_name.as_str().len() > MAX_FULL_NAME_BYTES {
        return Some(ApiResponse::BadRequest);
    }
    if payload.nickname.as_str().len() > MAX_NICKNAME_BYTES {
        return Some(ApiResponse::BadRequest);
    }
    match &payload.skills {
        Some(stack) => {
            for i in 0..stack.len()
                invariant
                    payload.skills.deep_view() == Some(stack.deep_view()),
                    forall|j: int| 0 <= j < i ==> byte_len(#[trigger] stack@[j]@) <= MAX_SKILL_BYTES,
            {
                if stack[i].as_str().len() > MAX_SKILL_BYTES {
                    // The skill at `i` witnesses that the request breaks a limit.
                    let ghost skills = payload.skills.deep_view()->0;
                    assert(skills[i as int] == stack@[i as int]@);
                    return Some(ApiResponse::BadRequest);
                }
            }
            assert forall|j: int| 0 <= j < stack.deep_view().len() implies byte_len(
                #[trigger] stack.deep_view()[j],
            ) <= MAX_SKILL_BYTES by {
                assert(stack.deep_view()[j] == stack@[j]@);
            }
        },
        None => {},
    }
    None
}

/// Where a registration goes after validation.
#[derive(Clone, Copy, PartialEq, Eq, Structural, Debug)]
pub enum StoreVia {
    /// Inserted into the database right away.
    Database,
    /// Published on the queue, to be bulk-inserted later.
    Queue,
}

/// Progress of a registration.
#[derive(Clone, Copy, PartialEq, Eq, Structural, Debug)]
pub enum CreationStage {
    /// The person was handed to the database or the queue.
    AwaitingStore,
    /// The stored person is being cached.
    AwaitingCache { id: PersonId },
    /// An answer was given.
    Finished,
}

/// What became of the last action of a registration.
pub enum CreationEvent {
    /// The person was stored; `json` is its JSON rendering.
    Stored { person: Person, json: String },
    /// Storing failed.
    StoreFailed,
    /// The stored person could not be rendered as JSON.
    SerializationFailed,
    /// The cache accepted the person.
    Cached,
    /// The cache refused the person.
    CacheFailed,
}

/// A registration in progress (`POST /person` and `POST /people`).
pub struct PersonCreation {
    pub stage: CreationStage,
}

fn location_of(id: &PersonId) -> (location: String)
    ensures
        location@ == person_location(*id),
{
    let mut location = String::from_str("/people/");
    location.append(id.to_text().as_str());
    location
}

/// The first step of a registration: a request over the size limits is
/// answered with 400 and nothing is stored; any other request becomes a person
/// under a fresh id, handed to the database or the queue.
pub fn start_creation(payload: AddPerson, via: StoreVia) -> (result: (PersonCreation, Action))
    ensures
        !payload_is_valid(payload) ==> result.0.stage == CreationStage::Finished && result.1
            == Action::Respond(ApiResponse::BadRequest),
        payload_is_valid(payload) ==> result.0.stage == CreationStage::AwaitingStore,
        payload_is_valid(payload) && via == StoreVia::Database ==> (result.1 matches Action::InsertPerson(
            person,
        ) && person == person_from_request(person.id, payload) && is_fresh_v4(person.id)),
        payload_is_valid(payload) && via == StoreVia::Queue ==> (result.1 matches Action::PublishPerson(
            person,
        ) && person == person_from_request(person.id, payload) && is_fresh_v4(person.id)),
{
    match validate_payload(&payload) {
        Some(response) => (PersonCreation { stage: CreationStage::Finished }, Action::Respond(response)),
        None => {
            let person = Person::with_new_id(payload);
            let action = match via {
                StoreVia::Database => Action::InsertPerson(person),
                StoreVia::Queue => Action::PublishPerson(person),
            };
            (PersonCreation { stage: CreationStage::AwaitingStore }, action)
        },
    }
}

/// `POST /person`: registration straight into the database.
pub fn add_person(payload: AddPerson) -> (result: (PersonCreation, Action))
    ensures
        !payload_is_valid(payload) ==> result.0.stage == CreationStage::Finished && result.1
            == Action::Respond(ApiResponse::BadRequest),
        payload_is_valid(payload) ==> result.0.stage == CreationStage::AwaitingStore && (result.1 matches Action::InsertPerson(
            person,
        ) && person == person_from_request(person.id, payload)
            && is_fresh_v4(person.id)),
{
    start_creation(payload, StoreVia::Database)
}

/// `POST /people`: registration through the queue.
pub fn create_person(payload: AddPerson) -> (result: (PersonCreation, Action))
    ensures
        !payload_is_valid(payload) ==> result.0.stage == CreationStage::Finished && result.1
            == Action::Respond(ApiResponse::BadRequest),
        payload_is_valid(payload) ==> result.0.stage == CreationStage::AwaitingStore && (result.1 matches Action::PublishPerson(
            person,
        ) && person == person_from_request(person.id, payload)
            && is_fresh_v4(person.id)),
{
    start_creation(payload, StoreVia::Queue)
}

impl PersonCreation {
    /// Advances the registration by what came of its last action: a stored
    /// person is cached under its id; once cached, the answer is 201 with the
    /// person's location; any failure ends it with a server error.
    pub fn step(&mut self, event: CreationEvent) -> (action: Action)
        ensures
            match (old(self).stage, event) {
                (CreationStage::AwaitingStore, CreationEvent::Stored { person, json }) => {
                    &&& final(self).stage == CreationStage::AwaitingCache { id: person.id }
                    &&& action matches Action::StoreCache { key, value }
                    &&& key@ == person.id.text()
                    &&& value@ == json@
                },
                (CreationStage::AwaitingStore, CreationEvent::StoreFailed) => {
                    final(self).stage == CreationStage::Finished && action == Action::Fail(
                        HandlerError::Storage,
                    )
                },
                (CreationStage::AwaitingStore, CreationEvent::SerializationFailed) => {
                    final(self).stage == CreationStage::Finished && action == Action::Fail(
                        HandlerError::Serialization,
                    )
                },
                (CreationStage::AwaitingCache { id }, CreationEvent::Cached) => {
                    &&& final(self).stage == CreationStage::Finished
                    &&& action matches Action::Respond(ApiResponse::Created { location })
                    &&& location@ == person_location(id)
                },
                (CreationStage::AwaitingCache { id }, CreationEvent::CacheFailed) => {
                    final(self).stage == CreationStage::Finished && action == Action::Fail(
                        HandlerError::Cache,
                    )
                },
                _ => final(self).stage == CreationStage::Finished && action == Action::Fail(
                    HandlerError::OutOfOrder,
                ),
            },
    {
        match (self.stage, event) {
            (CreationStage::AwaitingStore, CreationEvent::Stored { person, json }) => {
                self.stage = CreationStage::AwaitingCache { id: person.id };
                Action::StoreCache { key: person.id.to_text(), value: json }
            },
            (CreationStage::AwaitingStore, CreationEvent::StoreFailed) => {
                self.stage = CreationStage::Finished;
                Action::Fail(HandlerError::Storage)
            },
            (CreationStage::AwaitingStore, CreationEvent::SerializationFailed) => {
                self.stage = CreationStage::Finished;
                Action::Fail(HandlerError::Serialization)
            },
            (CreationStage::AwaitingCache { id }, CreationEvent::Cached) => {
                self.stage = CreationStage::Finished;
                Action::Respond(ApiResponse::Created { location: location_of(&id) })
            },
            (CreationStage::AwaitingCache { id }, CreationEvent::CacheFailed) => {
                self.stage = CreationStage::Finished;
                Action::Fail(HandlerError::Cache)
            },
            _ => {
                self.stage = CreationStage::Finished;
                Action::Fail(HandlerError::OutOfOrder)
            },
        }
    }
}

/// Progress of a lookup by id.
pub enum LookupStage {
    /// The cache is being asked for the raw id.
    AwaitingCache { raw_id: String },
    /// The database is being asked for the parsed id.
    AwaitingPerson,
    /// The person read from the database is being cached; `body` is the answer.
    AwaitingCacheWrite { body: String },
    /// An answer was given.
    Finished,
}

/// What became of the last action of a lookup.
pub enum LookupEvent {
    /// The cache held JSON under the raw id.
    CacheHit { body: String },
    /// The cache held nothing readable under the raw id.
    CacheMiss,
    /// The database held the person; `json` is its JSON rendering.
    Found { person: Person, json: String },
    /// The database did not yield the person.
    FetchFailed,
    /// The person could not be rendered as JSON.
    SerializationFailed,
    /// The cache write finished (its outcome does not matter).
    CacheWriteDone,
}

/// A lookup in progress (`GET /people/{id}`).
pub struct PersonLookup {
    pub stage: LookupStage,
}

/// `GET /people/{id}`: the lookup starts with the cache, keyed by the id as given.
pub fn get_person_by_id(raw_id: String) -> (result: (PersonLookup, Action))
    ensures
        result.0.stage matches LookupStage::AwaitingCache { raw_id: kept } && kept@ == raw_id@,
        result.1 matches Action::LookupCache { key } && key@ == raw_id@,
{
    let key = raw_id.clone();
    (PersonLookup { stage: LookupStage::AwaitingCache { raw_id } }, Action::LookupCache { key })
}

impl PersonLookup {
    /// Advances the lookup: a cache hit is answered as is; on a miss the id is
    /// parsed (a text that is no UUID ends the lookup) and read from the
    /// database; a found person is cached under its id and answered with its
    /// JSON whatever the cache does; any other failure ends it with a server error.
    pub fn step(&mut self, event: LookupEvent) -> (action: Action)
        ensures
            match (old(self).stage, event) {
                (LookupStage::AwaitingCache { .. }, LookupEvent::CacheHit { body }) => {
                    &&& final(self).stage is Finished
                    &&& action matches Action::Respond(ApiResponse::OkJson { body: answered })
                    &&& answered@ == body@
                },
                (LookupStage::AwaitingCache { raw_id }, LookupEvent::CacheMiss) => match uuid_parse(
                    raw_id@,
                ) {
                    Some(v) => final(self).stage is AwaitingPerson && action == Action::FetchPerson {
                        id: PersonId { value: v as u128 },
                    },
                    None => final(self).stage is Finished && action == Action::Fail(
                        HandlerError::InvalidId,
                    ),
                },
                (LookupStage::AwaitingPerson, LookupEvent::Found { person, json }) => {
                    &&& final(self).stage matches LookupStage::AwaitingCacheWrite { body }
                    &&& body@ == json@
                    &&& action matches Action::StoreCache { key, value }
                    &&& key@ == person.id.text()
                    &&& value@ == json@
                },
                (LookupStage::AwaitingPerson, LookupEvent::FetchFailed) => {
                    final(self).stage is Finished && action == Action::Fail(HandlerError::Storage)
                },
                (LookupStage::AwaitingPerson, LookupEvent::SerializationFailed) => {
                    final(self).stage is Finished && action == Action::Fail(
                        HandlerError::Serialization,
                    )
                },
                (LookupStage::AwaitingCacheWrite { body }, LookupEvent::CacheWriteDone) => {
                    &&& final(self).stage is Finished
                    &&& action matches Action::Respond(ApiResponse::OkJson { body: answered })
                    &&& answered@ == body@
                },
                _ => final(self).stage is Finished && action == Action::Fail(
                    HandlerError::OutOfOrder,
                ),
            },
    {
        let mut stage = LookupStage::Finished;
        std::mem::swap(&mut stage, &mut self.stage);
        match (stage, event) {
            (LookupStage::AwaitingCache { .. }, LookupEvent::CacheHit { body }) => {
                Action::Respond(ApiResponse::OkJson { body })
            },
            (LookupStage::AwaitingCache { raw_id }, LookupEvent::CacheMiss) => {
                match PersonId::parse(raw_id.as_str()) {
                    Ok(id) => {
                        self.stage = LookupStage::AwaitingPerson;
                        Action::FetchPerson { id }
                    },
                    Err(_) => Action::Fail(HandlerError::InvalidId),
                }
            },
            (LookupStage::AwaitingPerson, LookupEvent::Found { person, json }) => {
                let body = json.clone();
                self.stage = LookupStage::AwaitingCacheWrite { body };
                Action::StoreCache { key: person.id.to_text(), value: json }
            },
            (LookupStage::AwaitingPerson, LookupEvent::FetchFailed) => {
                Action::Fail(HandlerError::Storage)
            },
            (LookupStage::AwaitingPerson, LookupEvent::SerializationFailed) => {
                Action::Fail(HandlerError::Serialization)
            },
            (LookupStage::AwaitingCacheWrite { body }, LookupEvent::CacheWriteDone) => {
                Action::Respond(ApiResponse::OkJson { body })
            },
            _ => Action::Fail(HandlerError::OutOfOrder),
        }
    }
}

/// Decimal rendering of a signed number (`-` before negative ones).
pub open spec fn signed_decimal(n: int) -> Seq<char> {
    if n < 0 {
        seq!['-'] + decimal((-n) as nat)
    } else {
        decimal(n as nat)
    }
}

/// `GET /count-people`: the number of stored people as a plain 200 body.
pub fn get_count_people(count: i64) -> (response: ApiResponse)
    ensures
        response matches ApiResponse::OkText { body } && body@ == signed_decimal(count as int),
{
    let mut body = String::new();
    let magnitude: u64 = if count < 0 {
        push_char(&mut body, '-');
        (-(count as i128)) as u64
    } else {
        count as u64
    };
    push_decimal(&mut body, magnitude);
    assert(body@ =~= signed_decimal(count as int));
    ApiResponse::OkText { body }
}

/// The query string of `GET /people`.
pub struct SearchParam {
    param: String,
}

impl View for SearchParam {
    type V = Seq<char>;

    closed spec fn view(&self) -> Seq<char> {
        self.param@
    }
}

impl SearchParam {
    pub fn new(param: String) -> (search: SearchParam)
        ensures
            search@ == param@,
    {
        SearchParam { param }
    }

    /// The text searched for.
    pub fn param(&self) -> (param: &str)
        ensures
            param@ == self@,
    {
        self.param.as_str()
    }
}

/// `GET /people`: the pattern the people search matches, any text containing the parameter.
pub fn get_people_by_param(param: &SearchParam) -> (pattern: String)
    ensures
        pattern@ == seq!['%'] + param@ + seq!['%'],
{
    search_pattern(param.param())
}

/// Reading a created person back: the location a registration answers is
/// `/people/` followed by exactly the cache key the registration wrote, and a
/// lookup of that key that misses the cache fetches exactly the created id.
pub proof fn lemma_location_leads_to_created_person(id: PersonId)
    ensures
        person_location(id).subrange(8, person_location(id).len() as int) == id.text(),
        uuid_parse(id.text()) matches Some(v) && (PersonId { value: v as u128 }) == id,
{
    reveal_strlit("/people/");
    assert(person_location(id).subrange(8, person_location(id).len() as int) =~= id.text());
    lemma_id_text_reads_back(id);
}

/// A full name over 100 UTF-8 bytes makes a request invalid, whatever else it holds.
pub proof fn lemma_long_full_name_refused(p: AddPerson)
    requires
        byte_len(p.full_name@) > 100,
    ensures
        !payload_is_valid(p),
{
}

/// A nickname over 32 UTF-8 bytes makes a request invalid, whatever else it holds.
pub proof fn lemma_long_nickname_refused(p: AddPerson)
    requires
        byte_len(p.nickname@) > 32,
    ensures
        !payload_is_valid(p),
{
}

/// Any one skill over 32 UTF-8 bytes, wherever it stands in the list (the
/// first one included), makes a request invalid.
pub proof fn lemma_long_skill_refused(p: AddPerson, i: int)
    requires
        p.skills.deep_view() is Some,
        0 <= i < p.skills.deep_view()->0.len(),
        byte_len(p.skills.deep_view()->0[i]) > 32,
    ensures
        !payload_is_valid(p),
{
    let skills = p.skills.deep_view()->0;
    assert(byte_len(skills[i]) > MAX_SKILL_BYTES);
}

/// A request whose full name is at most 100 bytes, whose nickname is at most
/// 32 bytes and each of whose skills is at most 32 bytes is valid.
pub proof fn lemma_request_within_limits_accepted(p: AddPerson)
    requires
        byte_len(p.full_name@) <= 100,
        byte_len(p.nickname@) <= 32,
        p.skills.deep_view() is Some ==> forall|i: int|
            0 <= i < p.skills.deep_view()->0.len() ==> byte_len(
                #[trigger] p.skills.deep_view()->0[i],
            ) <= 32,
    ensures
        payload_is_valid(p),
{
}

/// The location of a created person is `/people/` followed by its id text.
pub proof fn lemma_location_shape(id: PersonId)
    ensures
        "/people/"@.is_prefix_of(person_location(id)),
        id.text().is_suffix_of(person_location(id)),
{
    lemma_concat_parts("/people/"@, id.text());
}

} // verus!
