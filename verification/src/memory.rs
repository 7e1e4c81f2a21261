//! Fallible reservations of exact capacity.
use std::collections::VecDeque;

use vstd::prelude::*;

verus! {

/// `Vec::try_reserve_exact`: asks for room for `additional` more elements and
/// keeps the elements as they are, whether or not the room is granted. Room for
/// no more elements is there already, so it is granted. Whether other room is
/// granted is up to the allocator.
#[verifier::external_body]
fn ask_for_vec<T>(values: &mut Vec<T>, additional: usize) -> (granted: bool)
    ensures
        final(values)@ == old(values)@,
        additional == 0 ==> granted,
{
    values.try_reserve_exact(additional).is_ok()
}

/// `VecDeque::try_reserve_exact`: asks for room for `additional` more elements
/// and keeps the elements as they are, whether or not the room is granted. Room
/// for no more elements is there already, so it is granted. Whether other room is
/// granted is up to the allocator.
#[verifier::external_body]
fn ask_for_queue<T>(values: &mut VecDeque<T>, additional: usize) -> (granted: bool)
    ensures
        final(values)@ == old(values)@,
        additional == 0 ==> granted,
{
    values.try_reserve_exact(additional).is_ok()
}

/// `String::try_reserve_exact`: asks for room for `additional` more bytes and
/// keeps the text as it is, whether or not the room is granted. Room for no more
/// bytes is there already, so it is granted. Whether other room is granted is up
/// to the allocator.
#[verifier::external_body]
fn ask_for_text(text: &mut String, additional: usize) -> (granted: bool)
    ensures
        final(text)@ == old(text)@,
        additional == 0 ==> granted,
{
    text.try_reserve_exact(additional).is_ok()
}

/// Whether the allocator may have refused a list room for more elements.
pub closed spec fn vec_refused<T>(held: Seq<T>, additional: int) -> bool {
    exists|asked: &mut Vec<T>, more: usize|
        {
            &&& (*asked)@ == held
            &&& more == additional
            &&& #[trigger] call_ensures(ask_for_vec::<T>, (asked, more), false)
        }
}

/// Whether the allocator may have refused a queue room for more elements.
pub closed spec fn queue_refused<T>(held: Seq<T>, additional: int) -> bool {
    exists|asked: &mut VecDeque<T>, more: usize|
        {
            &&& (*asked)@ == held
            &&& more == additional
            &&& #[trigger] call_ensures(ask_for_queue::<T>, (asked, more), false)
        }
}

/// Whether the allocator may have refused a text room for more bytes.
pub closed spec fn text_refused(held: Seq<char>, additional: int) -> bool {
    exists|asked: &mut String, more: usize|
        {
            &&& (*asked)@ == held
            &&& more == additional
            &&& #[trigger] call_ensures(ask_for_text, (asked, more), false)
        }
}

/// Whether the allocator may have refused room for a new byte string.
pub open spec fn bytes_refused(length: int) -> bool {
    vec_refused(Seq::<u8>::empty(), length)
}

/// Whether the allocator may have refused room for a new text.
pub open spec fn string_refused(length: int) -> bool {
    text_refused(Seq::empty(), length)
}

/// Asks for room for `additional` more elements of a list. Only the allocator
/// refuses it.
pub(crate) fn reserve_vec<T>(values: &mut Vec<T>, additional: usize) -> (granted: bool)
    ensures
        final(values)@ == old(values)@,
        additional == 0 ==> granted,
        !granted ==> vec_refused(old(values)@, additional as int),
{
    ask_for_vec(values, additional)
}

/// Asks for room for `additional` more elements of a queue. Only the allocator
/// refuses it.
pub(crate) fn reserve_queue<T>(values: &mut VecDeque<T>, additional: usize) -> (granted: bool)
    ensures
        final(values)@ == old(values)@,
        additional == 0 ==> granted,
        !granted ==> queue_refused(old(values)@, additional as int),
{
    ask_for_queue(values, additional)
}

/// Asks for room for `additional` more bytes of a text. Only the allocator
/// refuses it.
pub(crate) fn reserve_text(text: &mut String, additional: usize) -> (granted: bool)
    ensures
        final(text)@ == old(text)@,
        additional == 0 ==> granted,
        !granted ==> text_refused(old(text)@, additional as int),
{
    ask_for_text(text, additional)
}

/// Room for a list of `length` elements, unless the allocator refuses it.
pub(crate) fn vec_room<T>(length: usize) -> (room: Option<Vec<T>>)
    ensures
        length == 0 ==> room is Some,
        room matches Some(room) ==> room@ == Seq::<T>::empty(),
        room is None ==> vec_refused(Seq::<T>::empty(), length as int),
{
    let mut room: Vec<T> = Vec::new();
    if reserve_vec(&mut room, length) {
        Some(room)
    } else {
        None
    }
}

/// Room for a queue of `length` elements, unless the allocator refuses it.
pub(crate) fn queue_room<T>(length: usize) -> (room: Option<VecDeque<T>>)
    ensures
        length == 0 ==> room is Some,
        room matches Some(room) ==> room@ == Seq::<T>::empty(),
        room is None ==> queue_refused(Seq::<T>::empty(), length as int),
{
    let mut room: VecDeque<T> = VecDeque::new();
    if reserve_queue(&mut room, length) {
        Some(room)
    } else {
        None
    }
}

/// Room for a text of `length` bytes, unless the allocator refuses it.
pub(crate) fn text_room(length: usize) -> (room: Option<String>)
    ensures
        length == 0 ==> room is Some,
        room matches Some(room) ==> room@ == Seq::<char>::empty(),
        room is None ==> string_refused(length as int),
{
    let mut room = String::new();
    if reserve_text(&mut room, length) {
        Some(room)
    } else {
        None
    }
}

/// Room for no more elements or bytes is never refused.
pub proof fn law_no_room_is_never_refused<T>(list: Seq<T>, text: Seq<char>)
    ensures
        !vec_refused(list, 0),
        !queue_refused(list, 0),
        !text_refused(text, 0),
{
}

/// `Vec::capacity`: the number of elements that the vector can hold without
/// growing, which is up to the allocator and at least the length.
#[verifier::external_body]
pub(crate) fn capacity_of<T>(values: &Vec<T>) -> (capacity: usize)
    ensures
        capacity >= values@.len(),
{
    values.capacity()
}

/// `String::capacity`: the number of bytes that the text can hold without
/// growing, which is up to the allocator and at least the number of its bytes,
/// so at least the number of its characters.
#[verifier::external_body]
pub(crate) fn text_capacity(text: &String) -> (capacity: usize)
    ensures
        capacity >= text@.len(),
{
    text.capacity()
}

} // verus!
