//! The API operations: each takes the text a request answered with, reads
//! it as JSON, and interprets the envelope — an `info` key carries a
//! payload, a `message` key carries the service's word on an action.

use vstd::prelude::*;
use vstd::string::StrSliceExecFns;
use vstd::string::StringExecFns;

use crate::jsonv::{at_key, has_key, json_get, json_has_key, json_of, json_take, lookup,
    parse_json, scalar_string, scalar_text, Json};
use crate::machine::{machine_fields_ok, machine_from_json, machine_matches, Difficulty, Machine,
    OperatingSystem};
use crate::text::{alnum_char, dec_of, is_alnum, str_eq, u64_dec_string};

verus! {

/// How an operation fails: the answer was not JSON, a machine record was
/// malformed, the service refused with a message, or the envelope had an
/// unexpected shape and is handed back whole.
#[derive(Debug)]
pub enum ApiError {
    BadJson,
    BadMachine,
    Message(Json),
    Unexpected(Json),
}

/// The text under the envelope's `message` key, when it carries a scalar.
pub open spec fn message_text(v: Json) -> Option<Seq<char>> {
    if has_key(v, "message"@) {
        scalar_text(at_key(v, "message"@))
    } else {
        None
    }
}

/// Every member of `infos` is a well-formed machine object.
pub open spec fn all_machines_ok(infos: Seq<Json>) -> bool {
    forall|i: int| 0 <= i < infos.len() ==> machine_fields_ok(#[trigger] infos[i])
}

/// `ms` are exactly the machines `infos` describe, in the same order.
pub open spec fn machines_match(ms: Seq<Machine>, infos: Seq<Json>, base: Seq<char>) -> bool {
    &&& ms.len() == infos.len()
    &&& forall|i: int| 0 <= i < infos.len() ==> machine_matches(#[trigger] ms[i], infos[i], base)
}

/// What listing machines answers for the envelope `v`: the machines under
/// `info` (one, when it is a single object), or the envelope back as an
/// error.
pub open spec fn machines_outcome(
    v: Json,
    base: Seq<char>,
    r: Result<Vec<Machine>, ApiError>,
) -> bool {
    if !has_key(v, "info"@) {
        r == Err::<Vec<Machine>, ApiError>(ApiError::Unexpected(v))
    } else {
        match at_key(v, "info"@) {
            Json::Arr(infos) => {
                if all_machines_ok(infos@) {
                    r matches Ok(ms) && machines_match(ms@, infos@, base)
                } else {
                    r == Err::<Vec<Machine>, ApiError>(ApiError::BadMachine)
                }
            },
            info => {
                if machine_fields_ok(info) {
                    r matches Ok(ms) && ms@.len() == 1 && machine_matches(ms@[0], info, base)
                } else {
                    r == Err::<Vec<Machine>, ApiError>(ApiError::BadMachine)
                }
            },
        }
    }
}

/// Reads the machines out of a listing envelope.
#[verifier::loop_isolation(false)]
pub fn machines_from_envelope(v: Json, base: &str) -> (r: Result<Vec<Machine>, ApiError>)
    ensures
        machines_outcome(v, base@, r),
{
    let ghost v0 = v;
    if !json_has_key(&v, "info") {
        return Err(ApiError::Unexpected(v));
    }
    let info = json_take(v, "info");
    match info {
        Json::Arr(infos) => {
            let n = infos.len();
            let mut ms: Vec<Machine> = Vec::new();
            let mut i: usize = 0;
            while i < n
                invariant
                    at_key(v0, "info"@) == Json::Arr(infos),
                    has_key(v0, "info"@),
                    n == infos.len(),
                    i <= n,
                    ms@.len() == i,
                    forall|j: int| 0 <= j < i ==> machine_fields_ok(#[trigger] infos@[j]),
                    forall|j: int|
                        0 <= j < i ==> machine_matches(#[trigger] ms@[j], infos@[j], base@),
                decreases n - i,
            {
                match machine_from_json(&infos[i], base) {
                    Some(m) => ms.push(m),
                    None => {
                        return Err(ApiError::BadMachine);
                    },
                }
                i += 1;
            }
            Ok(ms)
        },
        other => {
            match machine_from_json(&other, base) {
                Some(m) => {
                    let mut ms: Vec<Machine> = Vec::new();
                    ms.push(m);
                    Ok(ms)
                },
                None => Err(ApiError::BadMachine),
            }
        },
    }
}

/// Lists machines: reads the answer `body` as JSON and interprets the
/// listing envelope, placing each machine's home under `base`.
pub fn get_machines(body: &str, base: &str) -> (r: Result<Vec<Machine>, ApiError>)
    ensures
        json_of(body@) is None ==> r == Err::<Vec<Machine>, ApiError>(ApiError::BadJson),
        json_of(body@) matches Some(v) ==> machines_outcome(v, base@, r),
{
    match parse_json(body) {
        Some(v) => machines_from_envelope(v, base),
        None => Err(ApiError::BadJson),
    }
}

/// What looking one machine up answers for the envelope `v`: a `message`
/// key is a refusal, an `info` key carries the record.
pub open spec fn machine_outcome(v: Json, base: Seq<char>, r: Result<Machine, ApiError>) -> bool {
    if has_key(v, "message"@) {
        r == Err::<Machine, ApiError>(ApiError::Message(at_key(v, "message"@)))
    } else if has_key(v, "info"@) {
        if machine_fields_ok(at_key(v, "info"@)) {
            r matches Ok(m) && machine_matches(m, at_key(v, "info"@), base)
        } else {
            r == Err::<Machine, ApiError>(ApiError::BadMachine)
        }
    } else {
        r == Err::<Machine, ApiError>(ApiError::Unexpected(v))
    }
}

/// Reads the one machine out of a profile envelope.
pub fn machine_from_envelope(v: Json, base: &str) -> (r: Result<Machine, ApiError>)
    ensures
        machine_outcome(v, base@, r),
{
    if json_has_key(&v, "message") {
        return Err(ApiError::Message(json_take(v, "message")));
    }
    if !json_has_key(&v, "info") {
        return Err(ApiError::Unexpected(v));
    }
    let info = json_take(v, "info");
    match machine_from_json(&info, base) {
        Some(m) => Ok(m),
        None => Err(ApiError::BadMachine),
    }
}

/// Looks one machine up: reads the answer `body` as JSON and interprets
/// the profile envelope.
pub fn get_machine(body: &str, base: &str) -> (r: Result<Machine, ApiError>)
    ensures
        json_of(body@) is None ==> r == Err::<Machine, ApiError>(ApiError::BadJson),
        json_of(body@) matches Some(v) ==> machine_outcome(v, base@, r),
{
    match parse_json(body) {
        Some(v) => machine_from_envelope(v, base),
        None => Err(ApiError::BadJson),
    }
}

/// Joining succeeds exactly when the envelope's message is the expected
/// word; anything else hands the envelope back as an error.
pub open spec fn join_outcome(v: Json, r: Result<(), ApiError>) -> bool {
    if message_text(v) == Some("Playing machine."@) {
        r is Ok
    } else {
        r == Err::<(), ApiError>(ApiError::Unexpected(v))
    }
}

/// Interprets the envelope a join request answered with.
pub fn join_confirm(v: Json) -> (r: Result<(), ApiError>)
    ensures
        join_outcome(v, r),
{
    let ok = match json_get(&v, "message") {
        Some(w) => match scalar_string(w) {
            Some(t) => str_eq(t.as_str(), "Playing machine."),
            None => false,
        },
        None => false,
    };
    if ok {
        Ok(())
    } else {
        Err(ApiError::Unexpected(v))
    }
}

/// Joins a machine: reads the answer `body` as JSON and checks the
/// envelope's message.
pub fn join_machine(body: &str) -> (r: Result<(), ApiError>)
    ensures
        json_of(body@) is None ==> r == Err::<(), ApiError>(ApiError::BadJson),
        json_of(body@) matches Some(v) ==> join_outcome(v, r),
{
    match parse_json(body) {
        Some(v) => join_confirm(v),
        None => Err(ApiError::BadJson),
    }
}

/// The step leaving takes after the active-machine envelope: nothing to do,
/// send the stop request, or fail with the envelope.
#[derive(Copy, Clone, Debug, PartialEq, Eq, Structural)]
pub enum LeaveAction {
    NoActive,
    SendStop,
}

/// What the active-machine envelope decides: no `info` key fails, a null
/// `info` means no machine is active, anything else asks for the stop.
pub open spec fn leave_outcome(v: Json, r: Result<LeaveAction, ApiError>) -> bool {
    if !has_key(v, "info"@) {
        r == Err::<LeaveAction, ApiError>(ApiError::Unexpected(v))
    } else if (at_key(v, "info"@) matches Json::Null) {
        r == Ok::<LeaveAction, ApiError>(LeaveAction::NoActive)
    } else {
        r == Ok::<LeaveAction, ApiError>(LeaveAction::SendStop)
    }
}

/// Begins leaving the active machine: reads the active-machine answer and
/// decides the next step.
pub fn leave_machine(body: &str) -> (r: Result<LeaveAction, ApiError>)
    ensures
        json_of(body@) is None ==> r == Err::<LeaveAction, ApiError>(ApiError::BadJson),
        json_of(body@) matches Some(v) ==> leave_outcome(v, r),
{
    match parse_json(body) {
        None => Err(ApiError::BadJson),
        Some(v) => {
            if !json_has_key(&v, "info") {
                return Err(ApiError::Unexpected(v));
            }
            let null_info = match json_get(&v, "info") {
                Some(w) => match w {
                    Json::Null => true,
                    _ => false,
                },
                None => false,
            };
            if null_info {
                Ok(LeaveAction::NoActive)
            } else {
                Ok(LeaveAction::SendStop)
            }
        },
    }
}

/// Confirming the stop succeeds exactly when the stop envelope's message is
/// the expected word, and then answers the name under its `info.name`; any
/// other shape hands back the envelope the active-machine request gave.
pub open spec fn leave_confirm_outcome(stop: Json, active: Json, r: Result<Json, ApiError>) -> bool {
    if message_text(stop) == Some("Stopped playing machine."@) {
        r == Ok::<Json, ApiError>(at_key(at_key(stop, "info"@), "name"@))
    } else {
        r == Err::<Json, ApiError>(ApiError::Unexpected(active))
    }
}

/// Ends leaving: reads the stop answer and, on the expected message, hands
/// out the left machine's name value.
pub fn leave_confirm(stop_body: &str, active: Json) -> (r: Result<Json, ApiError>)
    ensures
        json_of(stop_body@) is None ==> r == Err::<Json, ApiError>(ApiError::BadJson),
        json_of(stop_body@) matches Some(s) ==> leave_confirm_outcome(s, active, r),
{
    match parse_json(stop_body) {
        None => Err(ApiError::BadJson),
        Some(s) => {
            let ok = match json_get(&s, "message") {
                Some(w) => match scalar_string(w) {
                    Some(t) => str_eq(t.as_str(), "Stopped playing machine."),
                    None => false,
                },
                None => false,
            };
            if ok {
                Ok(json_take(json_take(s, "info"), "name"))
            } else {
                Err(ApiError::Unexpected(active))
            }
        },
    }
}

/// Submitting a flag succeeds exactly when the envelope carries a `message`
/// key, whose value is handed out to show.
pub open spec fn own_outcome(v: Json, r: Result<Json, ApiError>) -> bool {
    if has_key(v, "message"@) {
        r == Ok::<Json, ApiError>(at_key(v, "message"@))
    } else {
        r == Err::<Json, ApiError>(ApiError::Unexpected(v))
    }
}

/// Submits a flag: reads the answer `body` as JSON and hands out the
/// service's message.
pub fn own_machine(body: &str) -> (r: Result<Json, ApiError>)
    ensures
        json_of(body@) is None ==> r == Err::<Json, ApiError>(ApiError::BadJson),
        json_of(body@) matches Some(v) ==> own_outcome(v, r),
{
    match parse_json(body) {
        None => Err(ApiError::BadJson),
        Some(v) => {
            if json_has_key(&v, "message") {
                Ok(json_take(v, "message"))
            } else {
                Err(ApiError::Unexpected(v))
            }
        },
    }
}

/// Builds the body a flag submission sends: the flag, the machine id, and
/// the difficulty rating.
pub fn own_request(machine: &Machine, flag: &str, difficulty: u16) -> (r: Json)
    ensures
        r matches Json::Obj(entries) && entries@.len() == 3,
        at_key(r, "flag"@) matches Json::Str(t) && t@ == flag@,
        at_key(r, "id"@) matches Json::Num(t) && t@ == dec_of(machine.id as int),
        at_key(r, "difficulty"@) matches Json::Num(t) && t@ == dec_of(difficulty as int),
{
    let mut entries: Vec<(String, Json)> = Vec::new();
    entries.push((String::from_str("flag"), Json::Str(String::from_str(flag))));
    entries.push((String::from_str("id"), Json::Num(u64_dec_string(machine.id))));
    entries.push((String::from_str("difficulty"), Json::Num(u64_dec_string(difficulty as u64))));
    proof {
        reveal_strlit("flag");
        reveal_strlit("id");
        reveal_strlit("difficulty");
        assert("flag"@.len() == 4);
        assert("id"@.len() == 2);
        assert("difficulty"@.len() == 10);
        let d = entries@.drop_first();
        let dd = d.drop_first();
        assert(d[0] == entries@[1]);
        assert(dd[0] == entries@[2]);
        assert(lookup(entries@, "id"@) == lookup(d, "id"@));
        assert(lookup(d, "id"@) == Some(d[0].1));
        assert(lookup(entries@, "difficulty"@) == lookup(d, "difficulty"@));
        assert(lookup(d, "difficulty"@) == lookup(dd, "difficulty"@));
        assert(lookup(dd, "difficulty"@) == Some(dd[0].1));
    }
    Json::Obj(entries)
}

/// The views of a row of path segments.
pub open spec fn views_of(segments: Seq<String>) -> Seq<Seq<char>> {
    segments.map_values(|s: String| s@)
}

/// Path segments joined behind slashes.
pub open spec fn joined(segments: Seq<Seq<char>>) -> Seq<char>
    decreases segments.len(),
{
    if segments.len() == 0 {
        Seq::empty()
    } else if segments.len() == 1 {
        segments[0]
    } else {
        joined(segments.drop_last()) + "/"@ + segments.last()
    }
}

/// The full URL of an endpoint: the fixed service base, a slash, and the
/// path segments joined with slashes.
pub fn api_url(segments: &Vec<String>) -> (r: String)
    ensures
        r@ == "https://www.hackthebox.com/api/v4"@ + "/"@ + joined(views_of(segments@)),
{
    let ghost ms = views_of(segments@);
    let mut url = String::from_str("https://www.hackthebox.com/api/v4");
    url.append("/");
    let n = segments.len();
    let mut i: usize = 0;
    while i < n
        invariant
            ms == views_of(segments@),
            n == segments.len(),
            i <= n,
            i == 0 ==> url@ == "https://www.hackthebox.com/api/v4"@ + "/"@,
            i > 0 ==> url@ == "https://www.hackthebox.com/api/v4"@ + "/"@ + joined(ms.take(i as int)),
        decreases n - i,
    {
        if i > 0 {
            url.append("/");
        }
        url.append(segments[i].as_str());
        proof {
            assert(ms.take(i as int + 1).drop_last() =~= ms.take(i as int));
            assert(ms.take(i as int + 1).last() == segments@[i as int]@);
            if i > 0 {
                assert(url@ =~= "https://www.hackthebox.com/api/v4"@ + "/"@ + joined(
                    ms.take(i as int + 1),
                ));
            } else {
                assert(ms.take(1).len() == 1);
                assert(ms.take(1)[0] == segments@[0]@);
            }
        }
        i += 1;
    }
    proof {
        assert(ms.take(n as int) =~= ms);
    }
    url
}

/// Keep a machine exactly when each given filter matches it.
pub open spec fn machine_passes(
    m: Machine,
    os: Option<OperatingSystem>,
    difficulty: Option<Difficulty>,
) -> bool {
    &&& (os matches Some(o) ==> m.os == o)
    &&& (difficulty matches Some(d) ==> m.difficulty == d)
}

/// [`machine_passes`] as a function of the machine alone.
pub open spec fn passes_fn(
    os: Option<OperatingSystem>,
    difficulty: Option<Difficulty>,
) -> spec_fn(Machine) -> bool {
    |m: Machine| machine_passes(m, os, difficulty)
}

/// Keeps the machines the given filters match, in their given order.
pub fn filter_machines(
    machines: Vec<Machine>,
    os: Option<OperatingSystem>,
    difficulty: Option<Difficulty>,
) -> (r: Vec<Machine>)
    ensures
        r@ == machines@.filter(passes_fn(os, difficulty)),
{
    let ghost orig = machines@;
    let mut rest = machines;
    let mut kept: Vec<Machine> = Vec::new();
    let ghost mut done: Seq<Machine> = Seq::empty();
    while rest.len() > 0
        invariant
            done + rest@ == orig,
            kept@ == done.filter(passes_fn(os, difficulty)),
        decreases rest.len(),
    {
        let ghost rest0 = rest@;
        let m = rest.remove(0);
        let ghost mv = m;
        let os_ok = match os {
            Some(o) => o == m.os,
            None => true,
        };
        let diff_ok = match difficulty {
            Some(d) => d == m.difficulty,
            None => true,
        };
        proof {
            done.lemma_filter_push(mv, passes_fn(os, difficulty));
            assert((os_ok && diff_ok) == machine_passes(mv, os, difficulty));
            assert(passes_fn(os, difficulty)(mv) == machine_passes(mv, os, difficulty));
            assert(done.push(mv) + rest@ =~= done + rest0);
        }
        if os_ok && diff_ok {
            kept.push(m);
        }
        proof {
            done = done.push(mv);
        }
    }
    proof {
        assert(done =~= orig);
    }
    kept
}

/// The characters kept of a machine-name argument.
pub open spec fn kept_chars() -> spec_fn(char) -> bool {
    |c: char| is_alnum(c)
}

/// Cleans a machine-name argument: keeps its alphanumeric characters, and
/// refuses an argument with none at all.
pub fn parse_machine(input: &str) -> (r: Result<String, String>)
    ensures
        match r {
            Ok(name) => {
                &&& name@ == input@.filter(kept_chars())
                &&& name@.len() > 0
            },
            Err(e) => {
                &&& input@.filter(kept_chars()).len() == 0
                &&& e@ == "Invalid input after sanitation."@
            },
        },
{
    let n = input.unicode_len();
    let mut name = String::new();
    let mut i: usize = 0;
    while i < n
        invariant
            n == input@.len(),
            i <= n,
            name@ == input@.take(i as int).filter(kept_chars()),
        decreases n - i,
    {
        let c = input.get_char(i);
        proof {
            input@.lemma_take_succ_push(i as int);
            input@.take(i as int).lemma_filter_push(c, kept_chars());
        }
        if alnum_char(c) {
            crate::text::push_char(&mut name, c);
        }
        i += 1;
    }
    proof {
        assert(input@.take(n as int) =~= input@);
    }
    if name.unicode_len() == 0 {
        Err(String::from_str("Invalid input after sanitation."))
    } else {
        Ok(name)
    }
}

} // verus!
