//! Texts and maps of texts as contracts see them, and the comparison of
//! strings.
use vstd::prelude::*;

verus! {

/// Named text values: the variables of an environment, the keys of a
/// section, the aliases of an option.
pub type Entries = Map<Seq<char>, Seq<char>>;

/// The named sections of a configuration file, each with its entries.
pub type Sections = Map<Seq<char>, Entries>;

/// What contracts see of a value that may be absent.
pub open spec fn view_of<T: View>(value: Option<T>) -> Option<T::V> {
    match value {
        Some(v) => Some(v@),
        None => None,
    }
}

/// What a map says of a key, if anything.
pub open spec fn lookup(map: Entries, key: Seq<char>) -> Option<Seq<char>> {
    if map.contains_key(key) {
        Some(map[key])
    } else {
        None
    }
}

/// What a map says of the first of the given keys that it knows.
pub open spec fn first_known(map: Entries, keys: Seq<Seq<char>>) -> Option<Seq<char>>
    decreases keys.len(),
{
    if keys.len() == 0 {
        None
    } else if map.contains_key(keys[0]) {
        Some(map[keys[0]])
    } else {
        first_known(map, keys.drop_first())
    }
}

/// What a map says of one key, and of a second where it knows nothing of
/// the first.
pub open spec fn or_else(first: Option<Seq<char>>, second: Option<Seq<char>>) -> Option<Seq<char>> {
    match first {
        Some(value) => Some(value),
        None => second,
    }
}

/// Asking for the first known of some keys is asking for the first key, and
/// for the first known of the others where the first is not known.
pub proof fn lemma_first_known_unfolds(map: Entries, keys: Seq<Seq<char>>)
    requires
        keys.len() > 0,
    ensures
        first_known(map, keys) == or_else(lookup(map, keys[0]), first_known(map, keys.drop_first())),
{
}

/// The first known of two keys.
pub proof fn lemma_first_known_of_two(map: Entries, a: Seq<char>, b: Seq<char>)
    ensures
        first_known(map, seq![a, b]) == or_else(lookup(map, a), lookup(map, b)),
{
    let keys = seq![a, b];
    lemma_first_known_unfolds(map, keys);
    assert(keys.drop_first() =~= seq![b]);
    lemma_first_known_unfolds(map, seq![b]);
    assert(seq![b].drop_first() =~= Seq::<Seq<char>>::empty());
}

/// The first known of three keys.
pub proof fn lemma_first_known_of_three(map: Entries, a: Seq<char>, b: Seq<char>, c: Seq<char>)
    ensures
        first_known(map, seq![a, b, c]) == or_else(
            lookup(map, a),
            or_else(lookup(map, b), lookup(map, c)),
        ),
{
    let keys = seq![a, b, c];
    lemma_first_known_unfolds(map, keys);
    assert(keys.drop_first() =~= seq![b, c]);
    lemma_first_known_of_two(map, b, c);
}

/// The characters of each of the given strings.
pub open spec fn texts_of(names: Seq<&str>) -> Seq<Seq<char>> {
    names.map_values(|name: &str| name@)
}

/// Two strings with the same UTF-8 encoding hold the same characters.
pub proof fn lemma_encoding_is_injective(a: Seq<char>, b: Seq<char>)
    requires
        vstd::utf8::encode_utf8(a) == vstd::utf8::encode_utf8(b),
    ensures
        a == b,
{
    vstd::utf8::encode_utf8_decode_utf8(a);
    vstd::utf8::encode_utf8_decode_utf8(b);
}

/// Whether two byte slices hold the same bytes.
pub fn bytes_eq(a: &[u8], b: &[u8]) -> (same: bool)
    ensures
        same == (a@ == b@),
{
    if a.len() != b.len() {
        return false;
    }
    let mut i: usize = 0;
    while i < a.len()
        invariant
            a@.len() == b@.len(),
            i <= a@.len(),
            forall|j: int| 0 <= j < i ==> a@[j] == b@[j],
        decreases a@.len() - i,
    {
        if a[i] != b[i] {
            return false;
        }
        i += 1;
    }
    assert(a@ =~= b@);
    true
}

/// Whether two strings hold the same characters.
pub fn str_eq(a: &str, b: &str) -> (same: bool)
    ensures
        same == (a@ == b@),
{
    let same = bytes_eq(a.as_bytes(), b.as_bytes());
    proof {
        if same {
            lemma_encoding_is_injective(a@, b@);
        }
    }
    same
}

} // verus!
