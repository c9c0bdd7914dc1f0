//! Header names, header values and the ordered multimap that holds them.
//!
//! The map itself is `reqwest::header::HeaderMap`. What it holds is modelled
//! as a sequence of name/value pairs in the order in which the map hands them
//! out.

use crate::text::bytes_of;
use reqwest::header::{HeaderMap, HeaderName, HeaderValue};
use vstd::prelude::*;

verus! {

/// One header as the model sees it: the normalised name and the raw value.
pub type Entry = (Seq<char>, Seq<u8>);

/// The longest header name, in bytes.
pub const MAX_NAME_LEN: usize = 65535;

/// A map that holds fewer entries than this takes every header that is
/// accepted. The map refuses a header only when its table has grown to its
/// largest size and would have to grow again, and that takes more than six
/// thousand names.
pub const ROOM: usize = 4096;

/// Whether `c` may stand in a header name.
pub open spec fn is_token_char(c: char) -> bool {
    ||| 'a' <= c <= 'z'
    ||| 'A' <= c <= 'Z'
    ||| '0' <= c <= '9'
    ||| c == '!'
    ||| c == '#'
    ||| c == '$'
    ||| c == '%'
    ||| c == '&'
    ||| c == '\''
    ||| c == '*'
    ||| c == '+'
    ||| c == '-'
    ||| c == '.'
    ||| c == '^'
    ||| c == '_'
    ||| c == '`'
    ||| c == '|'
    ||| c == '~'
}

/// The lower-case form of an ASCII letter; every other character is itself.
pub open spec fn lower_char(c: char) -> char {
    if 'A' <= c <= 'Z' {
        ((c as u8 + 32) as u8) as char
    } else {
        c
    }
}

/// Whether `name` is accepted as a header name: between one and
/// `MAX_NAME_LEN` token characters.
pub open spec fn is_header_name(name: Seq<char>) -> bool {
    &&& 1 <= name.len() <= MAX_NAME_LEN
    &&& forall|i: int| 0 <= i < name.len() ==> is_token_char(#[trigger] name[i])
}

/// The form in which a header name is stored and compared: lower case.
pub open spec fn lower_name(name: Seq<char>) -> Seq<char> {
    name.map_values(|c: char| lower_char(c))
}

/// Whether `b` may stand in a header value.
pub open spec fn is_value_byte(b: u8) -> bool {
    (b >= 32 && b != 127) || b == 9
}

/// Whether `value` is accepted as a header value.
pub open spec fn is_header_value(value: Seq<u8>) -> bool {
    forall|i: int| 0 <= i < value.len() ==> is_value_byte(#[trigger] value[i])
}

/// The value of the first entry called `name`, if there is one.
pub open spec fn first_value(entries: Seq<Entry>, name: Seq<char>) -> Option<Seq<u8>>
    decreases entries.len(),
{
    if entries.len() == 0 {
        None
    } else if entries[0].0 == name {
        Some(entries[0].1)
    } else {
        first_value(entries.drop_first(), name)
    }
}

/// The index of the last entry called `name`, if there is one.
pub open spec fn last_index(entries: Seq<Entry>, name: Seq<char>) -> Option<int>
    decreases entries.len(),
{
    if entries.len() == 0 {
        None
    } else if entries.last().0 == name {
        Some(entries.len() - 1)
    } else {
        last_index(entries.drop_last(), name)
    }
}

/// The entries after `value` was appended under `name`: the new entry stands
/// directly behind the last entry of that name, or at the end where there is
/// none.
pub open spec fn appended(entries: Seq<Entry>, name: Seq<char>, value: Seq<u8>) -> Seq<Entry> {
    match last_index(entries, name) {
        Some(i) => entries.insert(i + 1, (name, value)),
        None => entries.push((name, value)),
    }
}

/// The value that a lookup under `key` yields: keys are compared without
/// regard to case, and a key that is no header name finds nothing.
pub open spec fn lookup(entries: Seq<Entry>, key: Seq<char>) -> Option<Seq<u8>> {
    if is_header_name(key) {
        first_value(entries, lower_name(key))
    } else {
        None
    }
}

/// One header handed out of a map.
#[derive(Debug)]
pub struct Header {
    pub name: String,
    pub value: Vec<u8>,
}

impl View for Header {
    type V = Entry;

    open spec fn view(&self) -> Entry {
        (self.name@, self.value@)
    }
}

/// The entries that a list of headers stands for.
pub open spec fn entries_of(list: Seq<Header>) -> Seq<Entry> {
    list.map_values(|h: Header| h@)
}

/// Why a header was not taken into a map.
#[derive(Clone, Copy, Debug, PartialEq, Eq, Structural)]
pub enum HeaderFault {
    /// The name is no header name.
    InvalidName,
    /// The value holds a byte that no header value may hold.
    InvalidValue,
    /// The map takes no further entry.
    Full,
}

#[verifier::external_type_specification]
#[verifier::external_body]
#[verifier::reject_recursive_types(T)]
pub struct ExHeaderMap<T>(HeaderMap<T>);

#[verifier::external_type_specification]
#[verifier::external_body]
pub struct ExHeaderValue(HeaderValue);

/// What a header map holds, in the order in which it hands its entries out:
/// names in the order of their first insertion, the values of one name
/// together and in the order of their insertion. The documentation of
/// `HeaderMap` leaves that order open; it is the order that the source of the
/// version in use fixes.
pub uninterp spec fn header_entries(map: HeaderMap<HeaderValue>) -> Seq<Entry>;

/// `HeaderMap::new`: a map without entries.
#[verifier::external_body]
fn map_new() -> (map: HeaderMap<HeaderValue>)
    ensures
        header_entries(map) == Seq::<Entry>::empty(),
{
    HeaderMap::new()
}

/// `HeaderMap::try_append`, with the name made by `HeaderName::from_bytes` and
/// the value by `HeaderValue::from_bytes`. The first refuses what is no
/// header name and lower-cases the rest; the second refuses a value with a
/// byte that `is_value_byte` excludes. The map then takes the value behind
/// the last one of that name, or as a new last entry, unless it has reached
/// its maximum size, which a map with fewer than `ROOM` entries has not;
/// whenever nothing is appended the map keeps its entries.
#[verifier::external_body]
fn map_try_append(
    map: &mut HeaderMap<HeaderValue>,
    name: &str,
    value: &[u8],
) -> (r: Option<HeaderFault>)
    ensures
        !is_header_name(name@) ==> r == Some(HeaderFault::InvalidName),
        is_header_name(name@) && !is_header_value(value@) ==> r == Some(HeaderFault::InvalidValue),
        is_header_name(name@) && is_header_value(value@) ==> r is None || r == Some(
            HeaderFault::Full,
        ),
        is_header_name(name@) && is_header_value(value@) && header_entries(*old(map)).len()
            < ROOM ==> r is None,
        r is None ==> header_entries(*final(map)) == appended(
            header_entries(*old(map)),
            lower_name(name@),
            value@,
        ),
        r is Some ==> header_entries(*final(map)) == header_entries(*old(map)),
{
    let Ok(n) = HeaderName::from_bytes(name.as_bytes()) else {
        return Some(HeaderFault::InvalidName);
    };
    let Ok(v) = HeaderValue::from_bytes(value) else {
        return Some(HeaderFault::InvalidValue);
    };
    match map.try_append(n, v) {
        Ok(_) => None,
        Err(_) => Some(HeaderFault::Full),
    }
}

/// `HeaderMap::get` with a string key: the first value stored under the
/// lower-cased key, copied out; nothing where the key is no header name.
#[verifier::external_body]
fn map_get(map: &HeaderMap<HeaderValue>, key: &str) -> (r: Option<Vec<u8>>)
    ensures
        bytes_of(r) == lookup(header_entries(*map), key@),
{
    map.get(key).map(|v| v.as_bytes().to_vec())
}

/// `HeaderMap::contains_key` with a string key: whether `HeaderMap::get`
/// would find a value.
#[verifier::external_body]
fn map_contains_key(map: &HeaderMap<HeaderValue>, key: &str) -> (r: bool)
    ensures
        r == (lookup(header_entries(*map), key@) is Some),
{
    map.contains_key(key)
}

/// `HeaderMap::iter`, each entry copied out as its name's text and its
/// value's bytes.
#[verifier::external_body]
fn map_list(map: &HeaderMap<HeaderValue>) -> (r: Vec<Header>)
    ensures
        entries_of(r@) == header_entries(*map),
{
    let mut list = Vec::new();
    for (name, value) in map.iter() {
        list.push(Header { name: name.as_str().to_string(), value: value.as_bytes().to_vec() });
    }
    list
}

/// `HeaderMap::clone`: a map with the same entries.
#[verifier::external_body]
fn map_clone(map: &HeaderMap<HeaderValue>) -> (r: HeaderMap<HeaderValue>)
    ensures
        header_entries(r) == header_entries(*map),
{
    map.clone()
}

/// An ordered multimap of headers.
#[derive(Debug)]
pub struct Headers {
    map: HeaderMap<HeaderValue>,
}

impl View for Headers {
    type V = Seq<Entry>;

    closed spec fn view(&self) -> Seq<Entry> {
        header_entries(self.map)
    }
}

impl Headers {
    /// A map without entries.
    pub fn new() -> (r: Headers)
        ensures
            r@ == Seq::<Entry>::empty(),
    {
        Headers { map: map_new() }
    }

    /// A map around `map`, with the entries that it holds.
    pub fn from_map(map: HeaderMap<HeaderValue>) -> (r: Headers)
        ensures
            r@ == header_entries(map),
    {
        Headers { map }
    }

    /// Appends `value` under `name`. A name or a value that is not accepted
    /// is refused, and so is any header once the map takes no more, which is
    /// not before it holds `ROOM` entries; a refusal leaves the map as it
    /// was.
    pub fn append(&mut self, name: &str, value: &[u8]) -> (r: Result<(), HeaderFault>)
        ensures
            !is_header_name(name@) ==> r is Err && r->Err_0 == HeaderFault::InvalidName,
            is_header_name(name@) && !is_header_value(value@) ==> r is Err && r->Err_0
                == HeaderFault::InvalidValue,
            is_header_name(name@) && is_header_value(value@) ==> r is Ok || r->Err_0
                == HeaderFault::Full,
            is_header_name(name@) && is_header_value(value@) && old(self)@.len() < ROOM ==> r is Ok,
            r is Ok ==> final(self)@ == appended(old(self)@, lower_name(name@), value@),
            r is Err ==> final(self)@ == old(self)@,
    {
        match map_try_append(&mut self.map, name, value) {
            None => Ok(()),
            Some(fault) => Err(fault),
        }
    }

    /// The first value stored under `key`, compared without regard to case.
    pub fn get(&self, key: &str) -> (r: Option<Vec<u8>>)
        ensures
            bytes_of(r) == lookup(self@, key@),
    {
        map_get(&self.map, key)
    }

    /// Whether a value is stored under `key`, compared without regard to case.
    pub fn contains_key(&self, key: &str) -> (r: bool)
        ensures
            r == (lookup(self@, key@) is Some),
    {
        map_contains_key(&self.map, key)
    }

    /// A map with the same entries.
    pub fn clone(&self) -> (r: Headers)
        ensures
            r@ == self@,
    {
        Headers { map: map_clone(&self.map) }
    }

    /// The headers in the order in which the map holds them.
    pub fn entries(&self) -> (r: Vec<Header>)
        ensures
            entries_of(r@) == self@,
    {
        map_list(&self.map)
    }
}

/// The last index of a name is the index of an entry of that name, and no
/// entry behind it has the name.
pub proof fn lemma_last_index(entries: Seq<Entry>, name: Seq<char>)
    ensures
        match last_index(entries, name) {
            Some(i) => {
                &&& 0 <= i < entries.len()
                &&& entries[i].0 == name
                &&& forall|j: int| i < j < entries.len() ==> (#[trigger] entries[j]).0 != name
            },
            None => forall|j: int| 0 <= j < entries.len() ==> (#[trigger] entries[j]).0 != name,
        },
    decreases entries.len(),
{
    if entries.len() > 0 && entries.last().0 != name {
        let front = entries.drop_last();
        lemma_last_index(front, name);
        assert forall|j: int| 0 <= j < front.len() implies front[j] == entries[j] by {}
        match last_index(front, name) {
            Some(i) => {
                assert forall|j: int| i < j < entries.len() implies (#[trigger] entries[j]).0
                    != name by {
                    if j < front.len() {
                        assert(front[j].0 != name);
                    }
                }
            },
            None => {
                assert forall|j: int| 0 <= j < entries.len() implies (#[trigger] entries[j]).0
                    != name by {
                    if j < front.len() {
                        assert(front[j].0 != name);
                    }
                }
            },
        }
    }
}

/// A lookup finds nothing exactly where no entry has the name.
pub proof fn lemma_first_value(entries: Seq<Entry>, name: Seq<char>)
    ensures
        first_value(entries, name) is None <==> forall|j: int|
            0 <= j < entries.len() ==> (#[trigger] entries[j]).0 != name,
    decreases entries.len(),
{
    if entries.len() > 0 {
        let rest = entries.drop_first();
        lemma_first_value(rest, name);
        if entries[0].0 != name {
            assert forall|j: int| 0 <= j < rest.len() implies rest[j] == entries[j + 1] by {}
            if first_value(rest, name) is None {
                assert forall|j: int| 0 <= j < entries.len() implies (#[trigger] entries[j]).0
                    != name by {
                    if j > 0 {
                        assert(rest[j - 1].0 != name);
                    }
                }
            } else {
                let j = choose|j: int| 0 <= j < rest.len() && (#[trigger] rest[j]).0 == name;
                assert(entries[j + 1].0 == name);
            }
        }
    }
}

/// An entry that is put into a list anywhere changes nothing for a lookup
/// under another name.
pub proof fn lemma_insert_other_name(entries: Seq<Entry>, at: int, entry: Entry, name: Seq<char>)
    requires
        0 <= at <= entries.len(),
        entry.0 != name,
    ensures
        first_value(entries.insert(at, entry), name) == first_value(entries, name),
    decreases at,
{
    let longer = entries.insert(at, entry);
    if at == 0 {
        assert(longer.drop_first() =~= entries);
    } else {
        assert(longer[0] == entries[0]);
        if entries[0].0 != name {
            assert(longer.drop_first() =~= entries.drop_first().insert(at - 1, entry));
            lemma_insert_other_name(entries.drop_first(), at - 1, entry, name);
        }
    }
}

/// An entry that is put into a list behind an entry of its own name changes
/// nothing for a lookup under that name; put in where no entry before it has
/// the name, it is what the lookup finds.
pub proof fn lemma_insert_same_name(entries: Seq<Entry>, at: int, entry: Entry)
    requires
        0 <= at <= entries.len(),
    ensures
        (exists|j: int| 0 <= j < at && (#[trigger] entries[j]).0 == entry.0) ==> first_value(
            entries.insert(at, entry),
            entry.0,
        ) == first_value(entries, entry.0),
        (forall|j: int| 0 <= j < at ==> (#[trigger] entries[j]).0 != entry.0) ==> first_value(
            entries.insert(at, entry),
            entry.0,
        ) == Some(entry.1),
    decreases at,
{
    let longer = entries.insert(at, entry);
    if at > 0 {
        assert(longer[0] == entries[0]);
        if entries[0].0 != entry.0 {
            let rest = entries.drop_first();
            assert(longer.drop_first() =~= rest.insert(at - 1, entry));
            lemma_insert_same_name(rest, at - 1, entry);
            if exists|j: int| 0 <= j < at && (#[trigger] entries[j]).0 == entry.0 {
                let j = choose|j: int| 0 <= j < at && (#[trigger] entries[j]).0 == entry.0;
                assert(rest[j - 1] == entries[j]);
            }
            assert forall|j: int| 0 <= j < at - 1 implies entries[j + 1] == #[trigger] rest[j] by {}
        }
    }
}

} // verus!
