//! The decryption keys the capture starts with, stored as base64 text per
//! key id.
use std::collections::HashMap;

use base64::Engine;
use vstd::prelude::*;

use crate::collect::map_views;

verus! {

/// The bytes that `text` encodes in standard base64 (the standard alphabet,
/// with padding), or `None` when `text` is not such an encoding.
pub uninterp spec fn base64_standard_decode(text: Seq<char>) -> Option<Seq<u8>>;

/// Decodes standard base64 text.
///
/// Calls `Engine::decode` of the base64 crate's `STANDARD` engine. Its
/// contract claims only that the outcome is the named result
/// [`base64_standard_decode`] of the text: the decoded bytes when the text
/// is valid, `None` when the crate reports an error.
#[verifier::external_body]
fn decode_base64(text: &str) -> (r: Option<Vec<u8>>)
    ensures
        match r {
            Some(v) => base64_standard_decode(text@) == Some(v@),
            None => base64_standard_decode(text@) is None,
        },
{
    match base64::engine::general_purpose::STANDARD.decode(text) {
        Ok(v) => Some(v),
        Err(_) => None,
    }
}

/// The view of a list of key entries.
pub open spec fn entries_view(s: Seq<(u32, String)>) -> Seq<(u32, Seq<char>)> {
    s.map_values(|e: (u32, String)| (e.0, e.1@))
}

/// Every entry's text is valid base64.
pub open spec fn all_decodable(s: Seq<(u32, Seq<char>)>) -> bool {
    forall|i: int| 0 <= i < s.len() ==> (#[trigger] base64_standard_decode(s[i].1)) is Some
}

/// The keys of a list of entries: each id mapped to its decoded bytes, a
/// later entry replacing an earlier one with the same id.
pub open spec fn keys_map(s: Seq<(u32, Seq<char>)>) -> Map<u32, Seq<u8>>
    decreases s.len(),
{
    if s.len() == 0 {
        Map::empty()
    } else {
        keys_map(s.drop_last()).insert(s.last().0, base64_standard_decode(s.last().1).unwrap())
    }
}

/// Decodes the key entries; every entry's text must be valid base64.
pub fn load_keys(entries: &Vec<(u32, String)>) -> (r: HashMap<u32, Vec<u8>>)
    requires
        all_decodable(entries_view(entries@)),
    ensures
        map_views(r@) == keys_map(entries_view(entries@)),
{
    let ghost s = entries_view(entries@);
    let mut r: HashMap<u32, Vec<u8>> = HashMap::new();
    let mut i: usize = 0;
    assert(map_views(r@) =~= keys_map(s.take(0)));
    while i < entries.len()
        invariant
            i <= entries@.len(),
            s == entries_view(entries@),
            all_decodable(s),
            map_views(r@) == keys_map(s.take(i as int)),
        decreases entries.len() - i,
    {
        let id = entries[i].0;
        let bytes = decode_base64(entries[i].1.as_str());
        assert(base64_standard_decode(s[i as int].1) is Some);
        let bytes = match bytes {
            Some(b) => b,
            None => Vec::new(),
        };
        let ghost before = r@;
        r.insert(id, bytes);
        proof {
            assert(s.take(i as int + 1).drop_last() =~= s.take(i as int));
            assert(map_views(r@) =~= map_views(before).insert(id, bytes@));
        }
        i = i + 1;
    }
    assert(s.take(entries@.len() as int) =~= s);
    r
}

/// Decodes the key entries, or gives `None` when some entry's text is not
/// valid base64.
pub fn try_load_keys(entries: &Vec<(u32, String)>) -> (r: Option<HashMap<u32, Vec<u8>>>)
    ensures
        match r {
            Some(m) => all_decodable(entries_view(entries@)) && map_views(m@) == keys_map(
                entries_view(entries@),
            ),
            None => !all_decodable(entries_view(entries@)),
        },
{
    let ghost s = entries_view(entries@);
    let mut i: usize = 0;
    while i < entries.len()
        invariant
            i <= entries@.len(),
            s == entries_view(entries@),
            forall|j: int| 0 <= j < i ==> (#[trigger] base64_standard_decode(s[j].1)) is Some,
        decreases entries.len() - i,
    {
        if decode_base64(entries[i].1.as_str()).is_none() {
            assert(!(base64_standard_decode(s[i as int].1) is Some));
            return None;
        }
        i = i + 1;
    }
    Some(load_keys(entries))
}

} // verus!
