//! The start-up warm-up: a burst of registrations through the queue endpoint,
//! later removed from the database.

use vstd::prelude::*;
use vstd::string::*;

use vstd::utf8::{is_ascii_chars, is_ascii_chars_encode_utf8};

use crate::controller::{byte_len, payload_is_valid};
use crate::dates::{BirthDate, CalendarDate};
use crate::data_access::db::AddPerson;
use crate::text::{decimal, lemma_decimal_is_ascii, lemma_decimal_len_below, pow10, push_decimal};

verus! {

/// Number of warm-up registrations sent at start-up.
pub const WARM_UP_REQUESTS: u16 = 511;

/// Seconds to wait before the warm-up burst.
pub const WARM_UP_START_DELAY_SECONDS: u64 = 2;

/// Seconds to wait before the warm-up entries are removed.
pub const WARM_UP_CLEANUP_DELAY_SECONDS: u64 = 10;

/// `http://host/endpoint`.
pub open spec fn warm_up_target(host: Seq<char>, endpoint: Seq<char>) -> Seq<char> {
    "http://"@ + host + "/"@ + endpoint
}

/// The URL each warm-up registration is posted to.
pub fn warm_up_url(localhost: &str, endpoint: &str) -> (url: String)
    ensures
        url@ == warm_up_target(localhost@, endpoint@),
{
    let mut url = String::from_str("http://");
    url.append(localhost);
    url.append("/");
    url.append(endpoint);
    assert(url@ =~= warm_up_target(localhost@, endpoint@));
    url
}

/// The `idx`-th warm-up registration: `WARMUP_DATA::#idx`, nickname
/// `WARMUP_DATA`, born 2000-01-01, skills `skill1` and `skill2`.
pub open spec fn is_warm_up_payload(payload: AddPerson, idx: nat) -> bool {
    &&& payload.full_name@ == "WARMUP_DATA::#"@ + decimal(idx)
    &&& payload.nickname@ == "WARMUP_DATA"@
    &&& payload.birth@ == (CalendarDate { year: 2000, month: 1, day: 1 })
    &&& payload.skills.deep_view() == Some(seq!["skill1"@, "skill2"@])
}

proof fn lemma_ascii_byte_len(s: Seq<char>)
    requires
        is_ascii_chars(s),
    ensures
        byte_len(s) == s.len() as usize,
{
    is_ascii_chars_encode_utf8(s);
}

/// Every warm-up registration is within the size limits (so it is queued, not
/// refused) and carries the warm-up nickname the clean-up removes.
proof fn lemma_warm_up_payload_is_valid(payload: AddPerson, idx: nat)
    requires
        is_warm_up_payload(payload, idx),
        idx < 65536,
    ensures
        payload_is_valid(payload),
{
    reveal_strlit("WARMUP_DATA::#");
    reveal_strlit("WARMUP_DATA");
    reveal_strlit("skill1");
    reveal_strlit("skill2");
    let prefix = "WARMUP_DATA::#"@;
    let digits = decimal(idx);
    lemma_decimal_is_ascii(idx);
    assert(pow10(5) == 100000) by {
        reveal_with_fuel(pow10, 6);
    }
    lemma_decimal_len_below(idx, 5);
    let full = prefix + digits;
    assert(is_ascii_chars(prefix));
    assert forall|i: int| 0 <= i < full.len() implies '\0' <= #[trigger] full[i] <= '\u{7f}' by {
        if i < prefix.len() {
            assert(full[i] == prefix[i]);
        } else {
            assert(full[i] == digits[i - prefix.len()]);
        }
    }
    lemma_ascii_byte_len(full);
    assert(is_ascii_chars("WARMUP_DATA"@));
    lemma_ascii_byte_len("WARMUP_DATA"@);
    let skills = seq!["skill1"@, "skill2"@];
    assert forall|i: int| 0 <= i < skills.len() implies byte_len(#[trigger] skills[i])
        <= 32 by {
        assert(is_ascii_chars("skill1"@));
        assert(is_ascii_chars("skill2"@));
        lemma_ascii_byte_len("skill1"@);
        lemma_ascii_byte_len("skill2"@);
    }
}

/// The `idx`-th warm-up registration, within the size limits.
pub fn warm_up_payload(idx: u16) -> (payload: AddPerson)
    ensures
        is_warm_up_payload(payload, idx as nat),
        payload_is_valid(payload),
{
    let mut full_name = String::from_str("WARMUP_DATA::#");
    push_decimal(&mut full_name, idx as u64);
    let birth = BirthDate::new(2000, 1, 1).unwrap();
    let skills = vec![String::from_str("skill1"), String::from_str("skill2")];
    assert(skills.deep_view() =~= seq!["skill1"@, "skill2"@]);
    let payload = AddPerson {
        full_name,
        nickname: String::from_str("WARMUP_DATA"),
        birth,
        skills: Some(skills),
    };
    proof {
        lemma_warm_up_payload_is_valid(payload, idx as nat);
    }
    payload
}

/// The whole warm-up burst: registration `i` for each `i` below `WARM_UP_REQUESTS`, in order.
pub fn warm_up_payloads() -> (payloads: Vec<AddPerson>)
    ensures
        payloads.len() == WARM_UP_REQUESTS,
        forall|i: int|
            0 <= i < payloads.len() ==> is_warm_up_payload(#[trigger] payloads[i], i as nat)
                && payload_is_valid(payloads[i]),
{
    let mut payloads: Vec<AddPerson> = Vec::new();
    for i in 0..WARM_UP_REQUESTS
        invariant
            payloads.len() == i,
            forall|j: int|
                0 <= j < payloads.len() ==> is_warm_up_payload(#[trigger] payloads[j], j as nat)
                    && payload_is_valid(payloads[j]),
    {
        payloads.push(warm_up_payload(i));
    }
    payloads
}

} // verus!
