//! What the Kotlin side sends: JSON text, with bytes in base64.

use std::collections::HashMap;
use std::hash::Hash;
use vstd::prelude::*;

verus! {

/// The JSON value that `serde_json::from_str` reads from a text, written out again, or the
/// text of the error.
pub uninterp spec fn json_value(text: Seq<char>) -> Result<Seq<char>, Seq<char>>;

/// The member of the JSON object in a text that `serde_json::Value::get` finds under a key,
/// written out again.
pub uninterp spec fn json_member(text: Seq<char>, key: Seq<char>) -> Option<Seq<char>>;

/// The bytes that base64's `STANDARD` engine decodes from a text, or the text of the error.
pub uninterp spec fn base64_bytes(text: Seq<char>) -> Result<Seq<u8>, Seq<char>>;

/// A result with its value and its error text viewed.
pub open spec fn text_result(result: Result<String, String>) -> Result<Seq<char>, Seq<char>> {
    match result {
        Ok(text) => Ok(text@),
        Err(e) => Err(e@),
    }
}

/// A result with its bytes and its error text viewed.
pub open spec fn bytes_result(result: Result<Vec<u8>, String>) -> Result<Seq<u8>, Seq<char>> {
    match result {
        Ok(bytes) => Ok(bytes@),
        Err(e) => Err(e@),
    }
}

/// Calls `serde_json::from_str` for a `serde_json::Value`, and that value's `to_string`.
///
/// Claimed: the outcome depends on the text alone.
#[verifier::external_body]
fn read_json(text: &str) -> (value: Result<String, String>)
    ensures
        text_result(value) == json_value(text@),
{
    match serde_json::from_str::<serde_json::Value>(text) {
        Ok(value) => Ok(value.to_string()),
        Err(e) => Err(e.to_string()),
    }
}

/// Calls `serde_json::Value::get` with a key, on the value in a text.
///
/// Claimed: the outcome depends on the text and the key alone.
#[verifier::external_body]
fn read_member(text: &str, key: &str) -> (member: Option<String>)
    ensures
        match member {
            Some(member) => json_member(text@, key@) == Some(member@),
            None => json_member(text@, key@) is None,
        },
{
    match serde_json::from_str::<serde_json::Value>(text) {
        Ok(value) => value.get(key).map(|member| member.to_string()),
        Err(_) => None,
    }
}

/// Calls `decode` of base64's `STANDARD` engine.
///
/// Claimed: the outcome depends on the text alone.
#[verifier::external_body]
fn read_base64(text: &str) -> (bytes: Result<Vec<u8>, String>)
    ensures
        bytes_result(bytes) == base64_bytes(text@),
{
    match base64::Engine::decode(&base64::engine::general_purpose::STANDARD, text) {
        Ok(bytes) => Ok(bytes),
        Err(e) => Err(e.to_string()),
    }
}

/// The JSON value of a payload. An empty payload is that of a command that answers nothing,
/// which reads as `null`.
pub open spec fn payload_value(payload: Seq<char>) -> Result<Seq<char>, Seq<char>> {
    if payload.len() == 0 {
        Ok("null"@)
    } else {
        json_value(payload)
    }
}

/// Reads a payload as JSON.
pub fn parse(json: &str) -> (value: Result<String, String>)
    ensures
        text_result(value) == payload_value(json@),
{
    if json.is_empty() {
        Ok("null".to_owned())
    } else {
        read_json(json)
    }
}

/// What the Kotlin side sends to the channel for adapter events.
#[derive(Debug)]
pub enum EventPayload {
    /// A note that the phone keeps the radio link to a device that was disconnected, for
    /// another application. Holds the address as JSON.
    LinkStillConnected(String),
    /// An event of the adapter.
    Event,
}

/// Tells a note from an event, by the member of the payload that only a note has.
pub fn event_payload(note: Option<String>) -> (payload: EventPayload)
    ensures
        payload == match note {
            Some(address) => EventPayload::LinkStillConnected(address),
            None => EventPayload::Event,
        },
{
    match note {
        Some(address) => EventPayload::LinkStillConnected(address),
        None => EventPayload::Event,
    }
}

/// Tells the notes among the payloads of the event channel from the events.
pub fn classify_event(json: &str) -> (payload: EventPayload)
    ensures
        match json_member(json@, "LinkStillConnected"@) {
            Some(address) => payload matches EventPayload::LinkStillConnected(a) && a@ == address,
            None => payload is Event,
        },
{
    event_payload(read_member(json, "LinkStillConnected"))
}

/// Reads bytes that were sent as base64.
pub fn deserialize_base64(text: &str) -> (bytes: Result<Vec<u8>, String>)
    ensures
        bytes_result(bytes) == base64_bytes(text@),
{
    read_base64(text)
}

/// The map that entries make up, given what each of their texts decodes to: later entries
/// replace earlier ones with the same key. The first text that is not base64 is the error.
pub open spec fn decoded_map<K>(
    keys: Seq<K>,
    decoded: Seq<Result<Seq<u8>, Seq<char>>>,
) -> Result<Map<K, Seq<u8>>, Seq<char>>
    decreases keys.len(),
{
    if keys.len() == 0 {
        Ok(Map::empty())
    } else {
        match decoded_map(keys.drop_last(), decoded.drop_last()) {
            Err(e) => Err(e),
            Ok(map) => match decoded.last() {
                Err(e) => Err(e),
                Ok(bytes) => Ok(map.insert(keys.last(), bytes)),
            },
        }
    }
}

/// A map of bytes with the bytes viewed.
pub open spec fn bytes_map<K>(map: Map<K, Vec<u8>>) -> Map<K, Seq<u8>> {
    map.map_values(|bytes: Vec<u8>| bytes@)
}

/// The keys of the entries of a map.
pub open spec fn entry_keys<K, V>(entries: Seq<(K, V)>) -> Seq<K> {
    entries.map_values(|entry: (K, V)| entry.0)
}

/// What the entries of a map have decoded to.
pub open spec fn entry_results<K>(
    entries: Seq<(K, Result<Vec<u8>, String>)>,
) -> Seq<Result<Seq<u8>, Seq<char>>> {
    entries.map_values(|entry: (K, Result<Vec<u8>, String>)| bytes_result(entry.1))
}

/// What the texts of the entries of a map decode to.
pub open spec fn entry_bytes<K>(entries: Seq<(K, String)>) -> Seq<Result<Seq<u8>, Seq<char>>> {
    entries.map_values(|entry: (K, String)| base64_bytes(entry.1@))
}

/// Makes a map of entries whose texts were decoded.
pub fn collect_map<K: Eq + Hash>(entries: Vec<(K, Result<Vec<u8>, String>)>) -> (map: Result<
    HashMap<K, Vec<u8>>,
    String,
>)
    requires
        vstd::std_specs::hash::obeys_key_model::<K>(),
    ensures
        match decoded_map(entry_keys(entries@), entry_results(entries@)) {
            Ok(decoded) => map matches Ok(map) && bytes_map(map@) == decoded,
            Err(e) => map matches Err(text) && text@ == e,
        },
{
    broadcast use vstd::std_specs::hash::group_hash_axioms;

    let mut map: HashMap<K, Vec<u8>> = HashMap::new();
    let ghost all = entries@;
    let ghost keys = entry_keys(all);
    let ghost decoded = entry_results(all);
    proof {
        assert(bytes_map(map@) =~= Map::<K, Seq<u8>>::empty());
        assert(keys.take(0) =~= Seq::<K>::empty());
    }
    for entry in it: entries
        invariant
            it.seq() == all,
            vstd::std_specs::hash::obeys_key_model::<K>(),
            keys == entry_keys(all),
            decoded == entry_results(all),
            decoded_map(keys.take(it.index() as int), decoded.take(it.index() as int)) == Ok::<
                Map<K, Seq<u8>>,
                Seq<char>,
            >(bytes_map(map@)),
    {
        let ghost i = it.index() as int;
        proof {
            assert(keys.take(i + 1).drop_last() =~= keys.take(i));
            assert(decoded.take(i + 1).drop_last() =~= decoded.take(i));
            assert(keys.take(i + 1).last() == entry.0);
            assert(decoded.take(i + 1).last() == bytes_result(entry.1));
        }
        let (key, outcome) = entry;
        match outcome {
            Err(e) => {
                proof {
                    lemma_error_stays(keys, decoded, i + 1);
                }
                return Err(e);
            },
            Ok(bytes) => {
                let ghost before = map@;
                let ghost view = bytes@;
                let _ = map.insert(key, bytes);
                proof {
                    assert(bytes_map(map@) =~= bytes_map(before).insert(key, view));
                }
            },
        }
    }
    proof {
        assert(keys.take(all.len() as int) =~= keys);
        assert(decoded.take(all.len() as int) =~= decoded);
    }
    Ok(map)
}

/// Reads a map whose values were sent as base64.
pub fn deserialize_base64_map<K: Eq + Hash + Copy>(entries: &Vec<(K, String)>) -> (map: Result<
    HashMap<K, Vec<u8>>,
    String,
>)
    requires
        vstd::std_specs::hash::obeys_key_model::<K>(),
    ensures
        match decoded_map(entry_keys(entries@), entry_bytes(entries@)) {
            Ok(decoded) => map matches Ok(map) && bytes_map(map@) == decoded,
            Err(e) => map matches Err(text) && text@ == e,
        },
{
    let mut decoded: Vec<(K, Result<Vec<u8>, String>)> = Vec::new();
    let mut i: usize = 0;
    while i < entries.len()
        invariant
            i <= entries@.len(),
            entry_keys(decoded@) == entry_keys(entries@).take(i as int),
            entry_results(decoded@) == entry_bytes(entries@).take(i as int),
        decreases entries.len() - i,
    {
        let ghost before = decoded@;
        decoded.push((entries[i].0, read_base64(entries[i].1.as_str())));
        i = i + 1;
        proof {
            assert(entry_keys(decoded@) =~= entry_keys(before).push(decoded@.last().0));
            assert(entry_results(decoded@) =~= entry_results(before).push(
                bytes_result(decoded@.last().1),
            ));
            assert(entry_keys(entries@).take(i as int) =~= entry_keys(entries@).take(i - 1).push(
                entries@[i - 1].0,
            ));
            assert(entry_bytes(entries@).take(i as int) =~= entry_bytes(entries@).take(i - 1).push(
                base64_bytes(entries@[i - 1].1@),
            ));
        }
    }
    proof {
        assert(entry_keys(entries@).take(i as int) =~= entry_keys(entries@));
        assert(entry_bytes(entries@).take(i as int) =~= entry_bytes(entries@));
    }
    collect_map(decoded)
}

proof fn lemma_error_stays<K>(
    keys: Seq<K>,
    decoded: Seq<Result<Seq<u8>, Seq<char>>>,
    n: int,
)
    requires
        0 <= n <= keys.len() == decoded.len(),
        decoded_map(keys.take(n), decoded.take(n)) is Err,
    ensures
        decoded_map(keys, decoded) == decoded_map(keys.take(n), decoded.take(n)),
    decreases keys.len() - n,
{
    if n == keys.len() {
        assert(keys.take(n) =~= keys);
        assert(decoded.take(n) =~= decoded);
    } else {
        assert(keys.take(n + 1).drop_last() =~= keys.take(n));
        assert(decoded.take(n + 1).drop_last() =~= decoded.take(n));
        lemma_error_stays(keys, decoded, n + 1);
    }
}

} // verus!
