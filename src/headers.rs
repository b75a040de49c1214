//! Turns the transport's header pairs into a string-to-string mapping,
//! tolerating values that are not valid UTF-8.
use vstd::prelude::*;
use vstd::utf8::{decode_utf8, valid_utf8};
use crate::strmap::StringMap;

verus! {

/// What `String::from_utf8_lossy` makes of a byte sequence.
pub uninterp spec fn lossy_utf8(b: Seq<u8>) -> Seq<char>;

/// Relies on `std::str::from_utf8`: it accepts exactly the valid UTF-8
/// sequences and then yields the characters they encode.
#[verifier::external_body]
fn decode_strict(b: &[u8]) -> (r: Option<String>)
    ensures
        r is Some <==> valid_utf8(b@),
        r matches Some(s) ==> s@ == decode_utf8(b@),
{
    std::str::from_utf8(b).ok().map(|s| s.to_owned())
}

/// Relies on `String::from_utf8_lossy`: invalid sequences become U+FFFD, and
/// valid UTF-8 is decoded unchanged.
#[verifier::external_body]
pub(crate) fn decode_lossy(b: &[u8]) -> (r: String)
    ensures
        r@ == lossy_utf8(b@),
        valid_utf8(b@) ==> r@ == decode_utf8(b@),
{
    String::from_utf8_lossy(b).into_owned()
}

/// The text of a header value: its UTF-8 decoding when it is valid, the lossy
/// decoding otherwise.
pub open spec fn header_text(b: Seq<u8>) -> Seq<char> {
    if valid_utf8(b) {
        decode_utf8(b)
    } else {
        lossy_utf8(b)
    }
}

/// The header mapping of `pairs` read in order; a later value of a name wins.
pub open spec fn header_map(pairs: Seq<(String, Vec<u8>)>) -> Map<Seq<char>, Seq<char>>
    decreases pairs.len(),
{
    if pairs.len() == 0 {
        Map::empty()
    } else {
        header_map(pairs.drop_last()).insert(pairs.last().0@, header_text(pairs.last().1@))
    }
}

/// Names of the pairs whose value is not valid UTF-8, in order.
pub open spec fn lossy_names(pairs: Seq<(String, Vec<u8>)>) -> Seq<Seq<char>>
    decreases pairs.len(),
{
    if pairs.len() == 0 {
        Seq::empty()
    } else if valid_utf8(pairs.last().1@) {
        lossy_names(pairs.drop_last())
    } else {
        lossy_names(pairs.drop_last()).push(pairs.last().0@)
    }
}

/// The normalised headers, and the names whose values needed lossy decoding
/// (each of which deserves a warning).
pub struct NormalizedHeaders {
    pub map: StringMap,
    pub lossy: Vec<String>,
}

/// Normalises header pairs (name, raw value bytes) into a mapping. Never fails.
pub fn process_headers(pairs: &Vec<(String, Vec<u8>)>) -> (r: NormalizedHeaders)
    ensures
        r.map.wf(),
        r.map@ == header_map(pairs@),
        r.lossy@.map_values(|s: String| s@) == lossy_names(pairs@),
{
    let mut map = StringMap::new();
    let mut lossy: Vec<String> = Vec::new();
    let mut i: usize = 0;
    while i < pairs.len()
        invariant
            i <= pairs@.len(),
            map.wf(),
            map@ == header_map(pairs@.subrange(0, i as int)),
            lossy@.map_values(|s: String| s@) == lossy_names(pairs@.subrange(0, i as int)),
        decreases pairs@.len() - i,
    {
        let name = pairs[i].0.clone();
        let bytes = pairs[i].1.as_slice();
        let text = match decode_strict(bytes) {
            Some(s) => s,
            None => {
                lossy.push(name.clone());
                decode_lossy(bytes)
            },
        };
        assert(pairs@.subrange(0, i + 1).drop_last() =~= pairs@.subrange(0, i as int));
        assert(lossy@.map_values(|s: String| s@) =~= lossy_names(pairs@.subrange(0, i + 1)));
        map.insert(name, text);
        i = i + 1;
    }
    assert(pairs@.subrange(0, pairs@.len() as int) =~= pairs@);
    NormalizedHeaders { map, lossy }
}

} // verus!
