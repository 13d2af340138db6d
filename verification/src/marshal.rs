//! Marshalling of host-supplied argument arrays into text.
//!
//! The host hands a builtin its arguments as an array of string pointers that
//! ends with a null pointer. Here such an array is a slice of slots: `None` is
//! a null pointer, `Some(bytes)` a pointer to a string with those bytes.
//! Whatever follows the first null slot is never looked at.

use vstd::prelude::*;
use vstd::utf8::*;
use crate::fatal::Fatal;

verus! {

/// `n` slots precede the terminator of `slots`: they all point to strings, and
/// slot `n` is null or lies beyond the end of the slice.
pub open spec fn ends_at(slots: Seq<Option<&[u8]>>, n: int) -> bool {
    &&& 0 <= n <= slots.len()
    &&& forall|i: int| 0 <= i < n ==> (#[trigger] slots[i]) is Some
    &&& n < slots.len() ==> slots[n] is None
}

/// The number of arguments in `slots`: the index of its first null slot, or
/// its length where it has none.
pub open spec fn arg_count(slots: Seq<Option<&[u8]>>) -> int {
    choose|n: int| ends_at(slots, n)
}

/// The bytes of argument `i` of `slots`.
pub open spec fn arg_bytes(slots: Seq<Option<&[u8]>>, i: int) -> Seq<u8> {
    slots[i].unwrap()@
}

/// Every argument of `slots` is valid UTF-8.
pub open spec fn args_are_text(slots: Seq<Option<&[u8]>>) -> bool {
    forall|i: int| 0 <= i < arg_count(slots) ==> valid_utf8(#[trigger] arg_bytes(slots, i))
}

/// The arguments of `slots` as text, in their order, or `None` where one of
/// them is not valid UTF-8.
pub open spec fn marshalled(slots: Seq<Option<&[u8]>>) -> Option<Seq<Seq<char>>> {
    if args_are_text(slots) {
        Some(Seq::new(arg_count(slots) as nat, |i: int| decode_utf8(arg_bytes(slots, i))))
    } else {
        None
    }
}

/// The characters of each string of `v`.
pub open spec fn texts(v: Seq<&str>) -> Seq<Seq<char>> {
    Seq::new(v.len(), |i: int| v[i]@)
}

/// At most one index ends an array.
pub proof fn lemma_ends_at_unique(slots: Seq<Option<&[u8]>>, n: int, m: int)
    requires
        ends_at(slots, n),
        ends_at(slots, m),
    ensures
        n == m,
{
    if n < m {
        assert(slots[n] is Some);
    } else if m < n {
        assert(slots[m] is Some);
    }
}

/// Every array ends somewhere, so `arg_count` is the one index at which it
/// does.
pub proof fn lemma_arg_count(slots: Seq<Option<&[u8]>>)
    ensures
        ends_at(slots, arg_count(slots)),
{
    lemma_ends_within(slots, 0);
}

/// An array whose first `k` slots point to strings ends at `k` or later.
proof fn lemma_ends_within(slots: Seq<Option<&[u8]>>, k: int)
    requires
        0 <= k <= slots.len(),
        forall|i: int| 0 <= i < k ==> (#[trigger] slots[i]) is Some,
    ensures
        exists|n: int| ends_at(slots, n),
    decreases slots.len() - k,
{
    if k < slots.len() && slots[k] is Some {
        lemma_ends_within(slots, k + 1);
    } else {
        assert(ends_at(slots, k));
    }
}

/// An array of `n` strings of valid UTF-8, terminated by a null slot, gives
/// exactly `n` texts, and text `i` is what string `i` encodes.
pub proof fn lemma_marshal_count_and_order(slots: Seq<Option<&[u8]>>, n: int)
    requires
        0 <= n < slots.len(),
        ends_at(slots, n),
        forall|i: int| 0 <= i < n ==> valid_utf8(#[trigger] arg_bytes(slots, i)),
    ensures
        marshalled(slots) is Some,
        marshalled(slots).unwrap().len() == n,
        forall|i: int|
            0 <= i < n ==> (#[trigger] marshalled(slots).unwrap()[i]) == decode_utf8(
                arg_bytes(slots, i),
            ),
{
    lemma_arg_count(slots);
    lemma_ends_at_unique(slots, n, arg_count(slots));
}

/// Nothing beyond the terminator is read: two arrays that agree up to and
/// including the first null slot marshal alike.
pub proof fn lemma_marshal_ignores_tail(
    slots: Seq<Option<&[u8]>>,
    other: Seq<Option<&[u8]>>,
    n: int,
)
    requires
        0 <= n < slots.len(),
        ends_at(slots, n),
        n < other.len(),
        forall|i: int| 0 <= i <= n ==> (#[trigger] other[i]) == slots[i],
    ensures
        marshalled(other) == marshalled(slots),
{
    lemma_arg_count(slots);
    lemma_ends_at_unique(slots, n, arg_count(slots));
    assert(ends_at(other, n)) by {
        assert(other[n] == slots[n]);
        assert forall|i: int| 0 <= i < n implies (#[trigger] other[i]) is Some by {
            assert(other[i] == slots[i]);
        }
    }
    lemma_arg_count(other);
    lemma_ends_at_unique(other, n, arg_count(other));
    assert forall|i: int| 0 <= i < n implies arg_bytes(other, i) == arg_bytes(slots, i) by {
        assert(other[i] == slots[i]);
    }
    if args_are_text(slots) {
        assert forall|i: int| 0 <= i < arg_count(other) implies valid_utf8(
            #[trigger] arg_bytes(other, i),
        ) by {
            assert(valid_utf8(arg_bytes(slots, i)));
        }
        assert(marshalled(other).unwrap() =~= marshalled(slots).unwrap());
    } else {
        let i = choose|i: int| 0 <= i < arg_count(slots) && !valid_utf8(#[trigger] arg_bytes(slots, i));
        assert(!valid_utf8(arg_bytes(other, i)));
    }
}

/// Decodes `bytes` as UTF-8 text.
///
/// Trusted: calls `core::str::from_utf8`, which returns the text that the
/// bytes encode when they are well-formed UTF-8 and an error otherwise.
#[verifier::external_body]
fn text_from_utf8<'a>(bytes: &'a [u8]) -> (text: Option<&'a str>)
    ensures
        text is Some <==> valid_utf8(bytes@),
        text matches Some(s) ==> s@ == decode_utf8(bytes@),
{
    core::str::from_utf8(bytes).ok()
}

/// Decodes the name under which the host invokes a builtin. A name that is
/// not valid UTF-8 is fatal.
pub fn name_from_ptr<'a>(name: &'a [u8]) -> (r: Result<&'a str, Fatal>)
    ensures
        match r {
            Ok(text) => valid_utf8(name@) && text@ == decode_utf8(name@),
            Err(e) => e == Fatal::ParseName && !valid_utf8(name@),
        },
{
    match text_from_utf8(name) {
        Some(text) => Ok(text),
        None => Err(Fatal::ParseName),
    }
}

/// Walks `slots` up to its first null slot and decodes each string before it
/// as UTF-8. A string that is not valid UTF-8 is fatal: no lossy text takes
/// its place.
pub fn strings_from_ptr<'a>(slots: &[Option<&'a [u8]>]) -> (r: Result<Vec<&'a str>, Fatal>)
    ensures
        match r {
            Ok(v) => {
                &&& marshalled(slots@) == Some(texts(v@))
                &&& v@.len() == arg_count(slots@)
                &&& forall|i: int|
                    0 <= i < v@.len() ==> (#[trigger] v@[i])@ == decode_utf8(arg_bytes(slots@, i))
            },
            Err(e) => e == Fatal::ParseArg && marshalled(slots@) is None,
        },
{
    let mut vec: Vec<&'a str> = Vec::with_capacity(2);
    let mut i: usize = 0;
    let mut open: bool = true;
    while open && i < slots.len()
        invariant
            0 <= i <= slots.len(),
            vec.len() == i,
            forall|j: int| 0 <= j < i ==> (#[trigger] slots@[j]) is Some,
            forall|j: int| 0 <= j < i ==> valid_utf8(#[trigger] arg_bytes(slots@, j)),
            forall|j: int| 0 <= j < i ==> (#[trigger] vec@[j])@ == decode_utf8(arg_bytes(slots@, j)),
            !open ==> i < slots.len() && slots@[i as int] is None,
        decreases (if open { 1int } else { 0int }), slots.len() - i,
    {
        match slots[i] {
            None => {
                open = false;
            },
            Some(bytes) => {
                match text_from_utf8(bytes) {
                    Some(s) => {
                        vec.push(s);
                        i = i + 1;
                    },
                    None => {
                        proof {
                            lemma_arg_count(slots@);
                            let n = arg_count(slots@);
                            if n <= i {
                                assert(slots@[n] is Some);
                            }
                            assert(!valid_utf8(arg_bytes(slots@, i as int)));
                        }
                        return Err(Fatal::ParseArg);
                    },
                }
            },
        }
    }
    proof {
        assert(ends_at(slots@, i as int));
        lemma_arg_count(slots@);
        lemma_ends_at_unique(slots@, i as int, arg_count(slots@));
        assert(texts(vec@) =~= marshalled(slots@).unwrap());
    }
    Ok(vec)
}

} // verus!
