use vstd::prelude::*;
use vstd::string::*;

use crate::dates::{date_text, BirthDate};
use crate::ids::{is_fresh_v4, lemma_id_text_len, PersonId};
use crate::text::push_char;

verus! {

/// A stored person.
pub struct Person {
    pub id: PersonId,
    pub full_name: String,
    pub nickname: String,
    pub birth: BirthDate,
    pub skills: Option<Vec<String>>,
}

/// A request to register a person.
pub struct AddPerson {
    pub full_name: String,
    pub nickname: String,
    pub birth: BirthDate,
    pub skills: Option<Vec<String>>,
}

/// The person that registering `request` under `id` stores.
pub open spec fn person_from_request(id: PersonId, request: AddPerson) -> Person {
    Person {
        id,
        full_name: request.full_name,
        nickname: request.nickname,
        birth: request.birth,
        skills: request.skills,
    }
}

impl Person {
    /// The person the request describes, under the given id.
    pub fn with_id(id: PersonId, request: AddPerson) -> (person: Person)
        ensures
            person == person_from_request(id, request),
    {
        Person {
            id,
            full_name: request.full_name,
            nickname: request.nickname,
            birth: request.birth,
            skills: request.skills,
        }
    }

    /// The person the request describes, under a fresh random id.
    pub fn with_new_id(request: AddPerson) -> (person: Person)
        ensures
            person == person_from_request(person.id, request),
            is_fresh_v4(person.id),
    {
        Person::with_id(PersonId::new_random(), request)
    }
}

/// `s` with every single quote doubled.
pub open spec fn escape_quotes(s: Seq<char>) -> Seq<char>
    decreases s.len(),
{
    if s.len() == 0 {
        Seq::empty()
    } else {
        escape_quotes(s.drop_last()) + if s.last() == '\'' {
            seq!['\'', '\'']
        } else {
            seq![s.last()]
        }
    }
}

fn escape_text(s: &str) -> (escaped: String)
    ensures
        escaped@ == escape_quotes(s@),
{
    let mut out = String::new();
    for c in iter: s.chars()
        invariant
            iter.seq() == s@,
            out@ == escape_quotes(s@.take(iter.index())),
    {
        assert(s@.take(iter.index() + 1).drop_last() =~= s@.take(iter.index()));
        if c == '\'' {
            push_char(&mut out, '\'');
            push_char(&mut out, '\'');
        } else {
            push_char(&mut out, c);
        }
    }
    assert(s@.take(s@.len() as int) =~= s@);
    out
}

/// `parts` joined with `sep` between consecutive parts.
pub open spec fn join(parts: Seq<Seq<char>>, sep: Seq<char>) -> Seq<char>
    decreases parts.len(),
{
    if parts.len() == 0 {
        Seq::empty()
    } else if parts.len() == 1 {
        parts[0]
    } else {
        join(parts.drop_last(), sep) + sep + parts.last()
    }
}

/// PostgreSQL array literal of the skills: `{a,b,...}` with quotes doubled,
/// `{}` when there are none.
pub open spec fn pg_array(skills: Option<Seq<Seq<char>>>) -> Seq<char> {
    match skills {
        Some(v) => if v.len() > 0 {
            seq!['{'] + join(v.map_values(|s: Seq<char>| escape_quotes(s)), seq![',']) + seq!['}']
        } else {
            seq!['{', '}']
        },
        None => seq!['{', '}'],
    }
}

/// Renders optional skills as a PostgreSQL array literal.
pub fn parse_vec_to_pg_vec(string_vec: &Option<Vec<String>>) -> (literal: String)
    ensures
        literal@ == pg_array(string_vec.deep_view()),
{
    match string_vec {
        Some(sv) => {
            if sv.len() == 0 {
                let mut out = String::new();
                push_char(&mut out, '{');
                push_char(&mut out, '}');
                assert(out@ =~= seq!['{', '}']);
                return out;
            }
            let ghost escaped = sv.deep_view().map_values(|s: Seq<char>| escape_quotes(s));
            let mut out = String::new();
            push_char(&mut out, '{');
            for i in 0..sv.len()
                invariant
                    escaped == sv.deep_view().map_values(|s: Seq<char>| escape_quotes(s)),
                    out@ == seq!['{'] + join(escaped.take(i as int), seq![',']),
            {
                let ghost before = out@;
                if i > 0 {
                    push_char(&mut out, ',');
                }
                let part = escape_text(sv[i].as_str());
                out.append(part.as_str());
                proof {
                    let t = escaped.take(i + 1);
                    assert(t.drop_last() =~= escaped.take(i as int));
                    assert(escaped[i as int] == escape_quotes(sv@[i as int]@));
                    if i == 0 {
                        assert(join(t, seq![',']) == t[0]);
                    }
                    assert(out@ =~= seq!['{'] + join(t, seq![',']));
                }
            }
            push_char(&mut out, '}');
            assert(escaped.take(sv.len() as int) =~= escaped);
            assert(out@ =~= pg_array(string_vec.deep_view()));
            out
        },
        None => {
            let mut out = String::new();
            push_char(&mut out, '{');
            push_char(&mut out, '}');
            assert(out@ =~= seq!['{', '}']);
            out
        },
    }
}

/// One bulk-load line: id, full name, nickname, birth date and skills,
/// tab-separated and newline-terminated.
pub open spec fn csv_line(p: Person) -> Seq<char> {
    p.id.text() + seq!['\t'] + p.full_name@ + seq!['\t'] + p.nickname@ + seq!['\t'] + date_text(
        p.birth@.year,
        p.birth@.month,
        p.birth@.day,
    ) + seq!['\t'] + pg_array(p.skills.deep_view()) + seq!['\n']
}

/// The lines of all people, in order.
pub open spec fn csv_of(people: Seq<Person>) -> Seq<char>
    decreases people.len(),
{
    if people.len() == 0 {
        Seq::empty()
    } else {
        csv_of(people.drop_last()) + csv_line(people.last())
    }
}

fn csv_line_text(person: &Person) -> (line: String)
    ensures
        line@ == csv_line(*person),
{
    let mut line = person.id.to_text();
    push_char(&mut line, '\t');
    line.append(person.full_name.as_str());
    push_char(&mut line, '\t');
    line.append(person.nickname.as_str());
    push_char(&mut line, '\t');
    line.append(person.birth.to_text().as_str());
    push_char(&mut line, '\t');
    line.append(parse_vec_to_pg_vec(&person.skills).as_str());
    push_char(&mut line, '\n');
    assert(line@ =~= csv_line(*person));
    line
}

/// The bulk-load text of `people`, one line each.
pub fn parse_people_to_csv(people: &[Person]) -> (csv: String)
    ensures
        csv@ == csv_of(people@),
{
    let mut csv_data = String::new();
    for i in 0..people.len()
        invariant
            csv_data@ == csv_of(people@.take(i as int)),
    {
        let line = csv_line_text(&people[i]);
        csv_data.append(line.as_str());
        assert(people@.take(i + 1).drop_last() =~= people@.take(i as int));
        assert(csv_data@ =~= csv_of(people@.take(i + 1)));
    }
    assert(people@.take(people.len() as int) =~= people@);
    csv_data
}

/// What a bulk insert sends to the database: nothing for no people,
/// otherwise their bulk-load text.
pub fn bulk_insert_payload(people: &[Person]) -> (payload: Option<String>)
    ensures
        people@.len() == 0 ==> payload is None,
        people@.len() > 0 ==> (payload matches Some(csv) && csv@ == csv_of(people@)),
{
    if people.len() == 0 {
        None
    } else {
        Some(parse_people_to_csv(people))
    }
}

/// The `ILIKE` pattern matching any text that contains `search`.
pub fn search_pattern(search: &str) -> (pattern: String)
    ensures
        pattern@ == seq!['%'] + search@ + seq!['%'],
{
    let mut pattern = String::new();
    push_char(&mut pattern, '%');
    pattern.append(search);
    push_char(&mut pattern, '%');
    assert(pattern@ =~= seq!['%'] + search@ + seq!['%']);
    pattern
}

/// Loading people in consecutive batches sends the same text as loading them
/// at once: the bulk-load text of `a + b` is that of `a` followed by that of `b`.
pub proof fn lemma_csv_of_concat(a: Seq<Person>, b: Seq<Person>)
    ensures
        csv_of(a + b) == csv_of(a) + csv_of(b),
    decreases b.len(),
{
    if b.len() == 0 {
        assert(a + b =~= a);
        assert(csv_of(b) =~= Seq::<char>::empty());
        assert(csv_of(a) + csv_of(b) =~= csv_of(a));
    } else {
        lemma_csv_of_concat(a, b.drop_last());
        assert((a + b).drop_last() =~= a + b.drop_last());
        assert((a + b).last() == b.last());
        assert(csv_of(a + b) =~= csv_of(a) + csv_of(b));
    }
}

/// The pieces of `s` between commas, as `str::split(',')` yields them (an empty
/// text gives one empty piece).
pub open spec fn split_commas(s: Seq<char>) -> Seq<Seq<char>>
    decreases s.len(),
{
    if s.len() == 0 {
        seq![Seq::empty()]
    } else {
        let pieces = split_commas(s.drop_last());
        if s.last() == ',' {
            pieces.push(Seq::empty())
        } else {
            pieces.update(pieces.len() - 1, pieces.last().push(s.last()))
        }
    }
}

/// No character of `s` is a comma.
pub open spec fn comma_free(s: Seq<char>) -> bool {
    forall|j: int| 0 <= j < s.len() ==> s[j] != ','
}

/// No character of `s` is a single quote.
pub open spec fn quote_free(s: Seq<char>) -> bool {
    forall|j: int| 0 <= j < s.len() ==> s[j] != '\''
}

proof fn lemma_split_commas_nonempty(s: Seq<char>)
    ensures
        split_commas(s).len() >= 1,
    decreases s.len(),
{
    if s.len() > 0 {
        lemma_split_commas_nonempty(s.drop_last());
    }
}

proof fn lemma_split_commas_extend(x: Seq<char>, b: Seq<char>)
    requires
        comma_free(b),
    ensures
        split_commas(x + b) == split_commas(x).update(
            split_commas(x).len() - 1,
            split_commas(x).last() + b,
        ),
    decreases b.len(),
{
    lemma_split_commas_nonempty(x);
    if b.len() == 0 {
        assert(x + b =~= x);
        assert(split_commas(x).last() + b =~= split_commas(x).last());
        assert(split_commas(x).update(split_commas(x).len() - 1, split_commas(x).last())
            =~= split_commas(x));
    } else {
        let b0 = b.drop_last();
        assert(comma_free(b0));
        lemma_split_commas_extend(x, b0);
        assert((x + b).drop_last() =~= x + b0);
        assert((x + b).last() == b.last());
        assert(b.last() != ',');
        assert((split_commas(x).last() + b0).push(b.last()) =~= split_commas(x).last() + b);
        assert(split_commas(x + b) =~= split_commas(x).update(
            split_commas(x).len() - 1,
            split_commas(x).last() + b,
        ));
    }
}

proof fn lemma_escape_quote_free(s: Seq<char>)
    requires
        quote_free(s),
    ensures
        escape_quotes(s) == s,
    decreases s.len(),
{
    if s.len() > 0 {
        assert(quote_free(s.drop_last()));
        lemma_escape_quote_free(s.drop_last());
        assert(s.last() != '\'');
        assert(s.drop_last() + seq![s.last()] =~= s);
    }
}

proof fn lemma_split_join(parts: Seq<Seq<char>>)
    requires
        parts.len() >= 1,
        forall|i: int| 0 <= i < parts.len() ==> comma_free(#[trigger] parts[i]),
    ensures
        split_commas(join(parts, seq![','])) == parts,
    decreases parts.len(),
{
    if parts.len() == 1 {
        lemma_split_commas_extend(Seq::empty(), parts[0]);
        assert(Seq::<char>::empty() + parts[0] =~= parts[0]);
        assert(split_commas(Seq::<char>::empty()) == seq![Seq::<char>::empty()]);
        assert(Seq::<char>::empty() + parts[0] =~= parts[0]);
        assert(seq![Seq::<char>::empty()].update(0, Seq::<char>::empty() + parts[0]) =~= parts);
    } else {
        let front = parts.drop_last();
        assert forall|i: int| 0 <= i < front.len() implies comma_free(#[trigger] front[i]) by {
            assert(front[i] == parts[i]);
        }
        lemma_split_join(front);
        let x = join(front, seq![',']) + seq![','];
        assert(x.drop_last() =~= join(front, seq![',']));
        assert(split_commas(x) == front.push(Seq::<char>::empty()));
        assert(comma_free(parts.last()));
        lemma_split_commas_extend(x, parts.last());
        assert(Seq::<char>::empty() + parts.last() =~= parts.last());
        assert(front.push(Seq::<char>::empty()).update(front.len() as int, parts.last()) =~= parts);
    }
}

/// Reading the array literal back: when no skill holds a comma or a single
/// quote, the literal of a non-empty skill list is `{`, the skills split at
/// commas, then `}`.
pub proof fn lemma_pg_array_splits_back(skills: Seq<Seq<char>>)
    requires
        skills.len() > 0,
        forall|i: int| 0 <= i < skills.len() ==> comma_free(#[trigger] skills[i]) && quote_free(
            skills[i],
        ),
    ensures
        ({
            let literal = pg_array(Some(skills));
            &&& literal.len() >= 2
            &&& literal[0] == '{'
            &&& literal.last() == '}'
            &&& split_commas(literal.subrange(1, literal.len() - 1)) == skills
        }),
{
    let escaped = skills.map_values(|s: Seq<char>| escape_quotes(s));
    assert forall|i: int| 0 <= i < skills.len() implies escaped[i] == skills[i] by {
        lemma_escape_quote_free(skills[i]);
    }
    assert(escaped =~= skills);
    lemma_split_join(skills);
    let inner = join(skills, seq![',']);
    let literal = pg_array(Some(skills));
    assert(literal =~= seq!['{'] + inner + seq!['}']);
    assert(literal.subrange(1, literal.len() - 1) =~= inner);
}

/// Escaping works character by character: the escape of a concatenation is
/// the concatenation of the escapes.
pub proof fn lemma_escape_quotes_concat(a: Seq<char>, b: Seq<char>)
    ensures
        escape_quotes(a + b) == escape_quotes(a) + escape_quotes(b),
    decreases b.len(),
{
    if b.len() == 0 {
        assert(a + b =~= a);
        assert(escape_quotes(b) =~= Seq::<char>::empty());
        assert(escape_quotes(a) + escape_quotes(b) =~= escape_quotes(a));
    } else {
        lemma_escape_quotes_concat(a, b.drop_last());
        assert((a + b).drop_last() =~= a + b.drop_last());
        assert((a + b).last() == b.last());
        let tail = if b.last() == '\'' {
            seq!['\'', '\'']
        } else {
            seq![b.last()]
        };
        assert(escape_quotes(a) + escape_quotes(b.drop_last()) + tail =~= escape_quotes(a) + (
        escape_quotes(b.drop_last()) + tail));
    }
}

/// A single quote is doubled; every other character is kept as it is.
pub proof fn lemma_escape_quotes_char(c: char)
    ensures
        escape_quotes(seq![c]) == if c == '\'' {
            seq!['\'', '\'']
        } else {
            seq![c]
        },
{
    assert(seq![c].drop_last() =~= Seq::<char>::empty());
    assert(escape_quotes(Seq::<char>::empty()) =~= Seq::<char>::empty());
    let tail = if c == '\'' {
        seq!['\'', '\'']
    } else {
        seq![c]
    };
    assert(Seq::<char>::empty() + tail =~= tail);
}

proof fn lemma_escape_keeps_comma_free(s: Seq<char>)
    requires
        comma_free(s),
    ensures
        comma_free(escape_quotes(s)),
    decreases s.len(),
{
    if s.len() > 0 {
        assert(comma_free(s.drop_last()));
        lemma_escape_keeps_comma_free(s.drop_last());
        assert(s.last() != ',');
        let e = escape_quotes(s);
        let front = escape_quotes(s.drop_last());
        assert forall|j: int| 0 <= j < e.len() implies e[j] != ',' by {
            if j < front.len() {
                assert(e[j] == front[j]);
            }
        }
    }
}

/// Every skill of a non-empty list is quote-escaped in the array literal,
/// however many skills there are: when no skill holds a comma, the text between
/// the braces splits at commas into the escaped skills, in order.
pub proof fn lemma_pg_array_escapes_every_skill(skills: Seq<Seq<char>>)
    requires
        skills.len() > 0,
        forall|i: int| 0 <= i < skills.len() ==> comma_free(#[trigger] skills[i]),
    ensures
        ({
            let literal = pg_array(Some(skills));
            &&& literal.len() >= 2
            &&& literal[0] == '{'
            &&& literal.last() == '}'
            &&& split_commas(literal.subrange(1, literal.len() - 1)) == skills.map_values(
                |s: Seq<char>| escape_quotes(s),
            )
        }),
{
    let escaped = skills.map_values(|s: Seq<char>| escape_quotes(s));
    assert forall|i: int| 0 <= i < escaped.len() implies comma_free(#[trigger] escaped[i]) by {
        lemma_escape_keeps_comma_free(skills[i]);
    }
    lemma_split_join(escaped);
    let inner = join(escaped, seq![',']);
    let literal = pg_array(Some(skills));
    assert(literal =~= seq!['{'] + inner + seq!['}']);
    assert(literal.subrange(1, literal.len() - 1) =~= inner);
}

/// The layout of a bulk-load line: the id text (36 characters), the full name
/// and the nickname exactly as they are, the birth date and the skills
/// literal, separated by tabs and ended by a newline.
pub proof fn lemma_csv_line_fields(p: Person)
    ensures
        ({
            let line = csv_line(p);
            let n = p.full_name@.len() as int;
            let k = p.nickname@.len() as int;
            let date = date_text(p.birth@.year, p.birth@.month, p.birth@.day);
            let d = date.len() as int;
            let skills = pg_array(p.skills.deep_view());
            &&& line.len() == 41 + n + k + d + skills.len()
            &&& line.subrange(0, 36) == p.id.text()
            &&& line[36] == '\t'
            &&& line.subrange(37, 37 + n) == p.full_name@
            &&& line[37 + n] == '\t'
            &&& line.subrange(38 + n, 38 + n + k) == p.nickname@
            &&& line[38 + n + k] == '\t'
            &&& line.subrange(39 + n + k, 39 + n + k + d) == date
            &&& line[39 + n + k + d] == '\t'
            &&& line.subrange(40 + n + k + d, line.len() - 1) == skills
            &&& line.last() == '\n'
        }),
{
    lemma_id_text_len(p.id);
    let line = csv_line(p);
    let n = p.full_name@.len() as int;
    let k = p.nickname@.len() as int;
    let date = date_text(p.birth@.year, p.birth@.month, p.birth@.day);
    let d = date.len() as int;
    let skills = pg_array(p.skills.deep_view());
    assert(line.subrange(0, 36) =~= p.id.text());
    assert(line.subrange(37, 37 + n) =~= p.full_name@);
    assert(line.subrange(38 + n, 38 + n + k) =~= p.nickname@);
    assert(line.subrange(39 + n + k, 39 + n + k + d) =~= date);
    assert(line.subrange(40 + n + k + d, line.len() - 1) =~= skills);
}

/// The bulk-load text of one person is that person's line.
pub proof fn lemma_csv_of_single(p: Person)
    ensures
        csv_of(seq![p]) == csv_line(p),
{
    assert(seq![p].drop_last() =~= Seq::<Person>::empty());
    assert(csv_of(Seq::<Person>::empty()) + csv_line(p) =~= csv_line(p));
}

} // verus!
