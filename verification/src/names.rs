//! Names of layers and extensions: reading them out of the fixed-size
//! character arrays in which the driver reports them, and looking them up in
//! the lists it reports.

use vstd::prelude::*;
use vstd::utf8::{decode_utf8, valid_utf8};

use crate::vk;

verus! {

/// The bytes of a C string held in `raw`: those before its first zero byte,
/// and all of `raw` where no byte is zero.
pub open spec fn c_str_bytes(raw: Seq<u8>) -> Seq<u8> {
    match raw.index_of_first(0u8) {
        Some(end) => raw.take(end),
        None => raw,
    }
}

/// What each of `names` reads, in the same order.
pub open spec fn names_of(names: Seq<String>) -> Seq<Seq<char>> {
    names.map_values(|name: String| name@)
}

/// Every name of `required` is among `available`.
pub open spec fn lists_all(available: Seq<Seq<char>>, required: Seq<Seq<char>>) -> bool {
    forall|j: int| 0 <= j < required.len() ==> available.contains(#[trigger] required[j])
}

/// The text of a name that the driver reports in a character array: the bytes
/// before the terminating zero, decoded as UTF-8. Nothing where those bytes
/// are not valid UTF-8.
pub fn vk_to_string(raw_array: &[u8]) -> (r: Option<String>)
    ensures
        r.is_some() == valid_utf8(c_str_bytes(raw_array@)),
        r matches Some(text) ==> text@ == decode_utf8(c_str_bytes(raw_array@)),
{
    let mut bytes: Vec<u8> = Vec::new();
    let mut i: usize = 0;
    while i < raw_array.len() && raw_array[i] != 0
        invariant
            i <= raw_array.len(),
            bytes@ == raw_array@.take(i as int),
            forall|j: int| 0 <= j < i ==> raw_array@[j] != 0,
        decreases raw_array.len() - i,
    {
        bytes.push(raw_array[i]);
        i += 1;
    }
    proof {
        raw_array@.index_of_first_ensures(0u8);
        if i < raw_array.len() {
            assert(raw_array@[i as int] == 0u8);
            assert(raw_array@.contains(0u8));
        } else {
            assert(raw_array@.take(i as int) == raw_array@);
        }
    }
    vk::string_from_utf8(bytes)
}

/// Whether `name` is among `names`.
pub fn contains_name(names: &Vec<String>, name: &String) -> (r: bool)
    ensures
        r == names_of(names@).contains(name@),
{
    let mut i: usize = 0;
    while i < names.len()
        invariant
            i <= names.len(),
            forall|k: int| 0 <= k < i ==> (#[trigger] names_of(names@)[k]) != name@,
        decreases names.len() - i,
    {
        if names[i] == *name {
            assert(names_of(names@)[i as int] == name@);
            return true;
        }
        i += 1;
    }
    false
}

/// Whether every name of `required` is among `available`.
pub fn contains_all_names(available: &Vec<String>, required: &Vec<String>) -> (r: bool)
    ensures
        r == lists_all(names_of(available@), names_of(required@)),
{
    let mut j: usize = 0;
    while j < required.len()
        invariant
            j <= required.len(),
            forall|k: int|
                0 <= k < j ==> names_of(available@).contains(#[trigger] names_of(required@)[k]),
        decreases required.len() - j,
    {
        if !contains_name(available, &required[j]) {
            assert(!names_of(available@).contains(names_of(required@)[j as int]));
            return false;
        }
        j += 1;
    }
    true
}

/// Every required name is available exactly where no required name is left
/// once the available ones are taken away.
pub proof fn lemma_lists_all_leaves_nothing(available: Seq<Seq<char>>, required: Seq<Seq<char>>)
    ensures
        lists_all(available, required) == required.to_set().difference(
            available.to_set(),
        ).is_empty(),
{
    let left = required.to_set().difference(available.to_set());
    if lists_all(available, required) {
        assert forall|name: Seq<char>| !left.contains(name) by {
            if required.to_set().contains(name) {
                let j = choose|j: int| 0 <= j < required.len() && required[j] == name;
                assert(available.contains(required[j]));
            }
        }
        assert(left =~= Set::empty());
    } else {
        let j = choose|j: int| 0 <= j < required.len() && !available.contains(required[j]);
        assert(required.contains(required[j]));
        assert(left.contains(required[j]));
    }
}

} // verus!
