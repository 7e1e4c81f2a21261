//! Moving accepted values into memory of their exact size.
//!
//! A caller may hand over a value whose allocation is far larger than the
//! value. What the service keeps is a copy of its own, and the caller's
//! memory is wiped whether or not the value was accepted.
use vstd::prelude::*;

use crate::memory;
use crate::memory::{text_room, vec_room};
use crate::ports::HostPortError;
use crate::secret::{wipe_bytes, wipe_text};

verus! {

/// Byte strings that are kept under a bound.
pub open spec fn is_bounded(bytes: Seq<u8>, maximum: nat) -> bool {
    0 < bytes.len() <= maximum
}

/// Whether a byte string holds no zero byte.
pub open spec fn has_no_zero(bytes: Seq<u8>) -> bool {
    forall|i: int| 0 <= i < bytes.len() ==> #[trigger] bytes[i] != 0
}

/// Whether a byte string holds no zero byte.
pub fn is_zero_free(bytes: &[u8]) -> (zero_free: bool)
    ensures
        zero_free == has_no_zero(bytes@),
{
    let mut index: usize = 0;
    while index < bytes.len()
        invariant
            index <= bytes@.len(),
            forall|i: int| 0 <= i < index ==> #[trigger] bytes@[i] != 0,
        decreases bytes@.len() - index,
    {
        if bytes[index] == 0 {
            assert(bytes@[index as int] == 0);
            return false;
        }
        index += 1;
    }
    true
}

/// Copies an accepted byte string into reserved room and wipes the source.
///
/// `room` is the granted reservation, or nothing where it was refused.
pub fn rehome_bytes(source: &mut Vec<u8>, maximum_bytes: usize, room: Option<Vec<u8>>) -> (kept:
    Result<Vec<u8>, HostPortError>)
    requires
        room is Some ==> room->0@ == Seq::<u8>::empty(),
    ensures
        final(source)@ == Seq::<u8>::empty(),
        !is_bounded(old(source)@, maximum_bytes as nat) ==> kept == Err::<Vec<u8>, HostPortError>(
            HostPortError::InvalidInput,
        ),
        is_bounded(old(source)@, maximum_bytes as nat) && room is None ==> kept == Err::<
            Vec<u8>,
            HostPortError,
        >(HostPortError::AllocationFailed),
        is_bounded(old(source)@, maximum_bytes as nat) && room is Some ==> kept is Ok
            && kept->Ok_0@ == old(source)@,
{
    if source.len() == 0 || source.len() > maximum_bytes {
        wipe_bytes(source);
        return Err(HostPortError::InvalidInput);
    }
    match room {
        None => {
            wipe_bytes(source);
            Err(HostPortError::AllocationFailed)
        },
        Some(room) => {
            let mut retained = room;
            retained.extend_from_slice(source.as_slice());
            assert(retained@ =~= source@);
            wipe_bytes(source);
            Ok(retained)
        },
    }
}

/// Reserves exact room, unless the reservation is refused or made to fail. No
/// room at all is never refused.
fn reserve_room(length: usize, fail_reservation: bool) -> (room: Option<Vec<u8>>)
    ensures
        room is Some ==> room->0@ == Seq::<u8>::empty(),
        fail_reservation ==> room is None,
        length == 0 && !fail_reservation ==> room is Some,
        room is None ==> fail_reservation || memory::bytes_refused(length as int),
{
    if fail_reservation {
        return None;
    }
    vec_room(length)
}

/// Keeps an accepted byte string, with a switch that makes the reservation fail.
pub fn try_rehome_bytes_inner(
    source: &mut Vec<u8>,
    maximum_bytes: usize,
    fail_reservation: bool,
) -> (kept: Result<Vec<u8>, HostPortError>)
    ensures
        final(source)@ == Seq::<u8>::empty(),
        !is_bounded(old(source)@, maximum_bytes as nat) ==> kept == Err::<Vec<u8>, HostPortError>(
            HostPortError::InvalidInput,
        ),
        is_bounded(old(source)@, maximum_bytes as nat) ==> match kept {
            Ok(bytes) => bytes@ == old(source)@ && !fail_reservation,
            Err(error) => error == HostPortError::AllocationFailed && (fail_reservation
                || memory::bytes_refused(old(source)@.len() as int)),
        },
{
    let room = reserve_room(source.len(), fail_reservation);
    rehome_bytes(source, maximum_bytes, room)
}

/// Keeps an accepted byte string.
pub fn try_rehome_bytes(source: &mut Vec<u8>, maximum_bytes: usize) -> (kept: Result<
    Vec<u8>,
    HostPortError,
>)
    ensures
        final(source)@ == Seq::<u8>::empty(),
        !is_bounded(old(source)@, maximum_bytes as nat) ==> kept == Err::<Vec<u8>, HostPortError>(
            HostPortError::InvalidInput,
        ),
        is_bounded(old(source)@, maximum_bytes as nat) ==> match kept {
            Ok(bytes) => bytes@ == old(source)@,
            Err(error) => error == HostPortError::AllocationFailed && memory::bytes_refused(
                old(source)@.len() as int,
            ),
        },
{
    try_rehome_bytes_inner(source, maximum_bytes, false)
}

/// Texts that are kept under a bound: not empty, short enough and without a
/// zero byte.
pub open spec fn is_bounded_text(text: Seq<char>, maximum: nat) -> bool {
    let bytes = vstd::utf8::encode_utf8(text);
    is_bounded(bytes, maximum) && has_no_zero(bytes)
}

/// Whether a text can be kept under a bound.
pub fn accepts_text(text: &str, maximum_bytes: usize) -> (accepted: bool)
    ensures
        accepted == is_bounded_text(text@, maximum_bytes as nat),
{
    let bytes = text.as_bytes();
    bytes.len() > 0 && bytes.len() <= maximum_bytes && is_zero_free(bytes)
}

/// Copies a text into room of its exact size.
pub fn try_copy_str(value: &str, maximum_bytes: usize) -> (kept: Result<String, HostPortError>)
    ensures
        !is_bounded_text(value@, maximum_bytes as nat) ==> kept == Err::<String, HostPortError>(
            HostPortError::InvalidInput,
        ),
        is_bounded_text(value@, maximum_bytes as nat) ==> match kept {
            Ok(text) => text@ == value@,
            Err(error) => error == HostPortError::AllocationFailed && memory::string_refused(
                vstd::utf8::encode_utf8(value@).len() as int,
            ),
        },
{
    let room = if accepts_text(value, maximum_bytes) {
        text_room(value.as_bytes().len())
    } else {
        None
    };
    copied_text(value, maximum_bytes, room)
}

/// Copies an accepted text into reserved room.
///
/// `room` is the granted reservation, or nothing where it was refused.
pub fn copied_text(value: &str, maximum_bytes: usize, room: Option<String>) -> (kept: Result<
    String,
    HostPortError,
>)
    requires
        room is Some ==> room->0@ == Seq::<char>::empty(),
    ensures
        match (is_bounded_text(value@, maximum_bytes as nat), room) {
            (false, _) => kept == Err::<String, HostPortError>(HostPortError::InvalidInput),
            (true, None) => kept == Err::<String, HostPortError>(HostPortError::AllocationFailed),
            (true, Some(_)) => kept is Ok && kept->Ok_0@ == value@,
        },
{
    if !accepts_text(value, maximum_bytes) {
        return Err(HostPortError::InvalidInput);
    }
    match room {
        Some(room) => {
            let mut retained = room;
            retained.append(value);
            assert(retained@ =~= value@);
            Ok(retained)
        },
        None => Err(HostPortError::AllocationFailed),
    }
}

/// Keeps an accepted text and wipes the source.
pub fn try_rehome_string(source: String, maximum_bytes: usize) -> (kept: Result<
    String,
    HostPortError,
>)
    ensures
        !is_bounded_text(source@, maximum_bytes as nat) ==> kept == Err::<String, HostPortError>(
            HostPortError::InvalidInput,
        ),
        is_bounded_text(source@, maximum_bytes as nat) ==> match kept {
            Ok(text) => text@ == source@,
            Err(error) => error == HostPortError::AllocationFailed && memory::string_refused(
                vstd::utf8::encode_utf8(source@).len() as int,
            ),
        },
{
    let mut source = source;
    let kept = try_copy_str(source.as_str(), maximum_bytes);
    wipe_text(&mut source);
    kept
}

/// Copies a byte string of at most `maximum_bytes` bytes, which may be empty.
pub fn try_copy_encoded(source: &Vec<u8>, maximum_bytes: usize) -> (kept: Result<
    Vec<u8>,
    HostPortError,
>)
    ensures
        source@.len() > maximum_bytes ==> kept == Err::<Vec<u8>, HostPortError>(
            HostPortError::CapacityExceeded,
        ),
        source@.len() <= maximum_bytes ==> match kept {
            Ok(bytes) => bytes@ == source@,
            Err(error) => error == HostPortError::AllocationFailed && memory::bytes_refused(
                source@.len() as int,
            ),
        },
{
    let room = if source.len() > maximum_bytes {
        None
    } else {
        vec_room(source.len())
    };
    copied_bytes(source, maximum_bytes, room)
}

/// Copies a byte string of at most `maximum_bytes` bytes into reserved room.
///
/// `room` is the granted reservation, or nothing where it was refused.
pub fn copied_bytes(source: &Vec<u8>, maximum_bytes: usize, room: Option<Vec<u8>>) -> (kept: Result<
    Vec<u8>,
    HostPortError,
>)
    requires
        room is Some ==> room->0@ == Seq::<u8>::empty(),
    ensures
        match (source@.len() <= maximum_bytes, room) {
            (false, _) => kept == Err::<Vec<u8>, HostPortError>(HostPortError::CapacityExceeded),
            (true, None) => kept == Err::<Vec<u8>, HostPortError>(HostPortError::AllocationFailed),
            (true, Some(_)) => kept is Ok && kept->Ok_0@ == source@,
        },
{
    if source.len() > maximum_bytes {
        return Err(HostPortError::CapacityExceeded);
    }
    match room {
        Some(room) => {
            let mut retained = room;
            retained.extend_from_slice(source.as_slice());
            assert(retained@ =~= source@);
            Ok(retained)
        },
        None => Err(HostPortError::AllocationFailed),
    }
}

/// Keeps a byte string of at most `maximum_bytes` bytes, which may be empty.
pub fn try_rehome_encoded(source: Vec<u8>, maximum_bytes: usize) -> (kept: Result<
    Vec<u8>,
    HostPortError,
>)
    ensures
        source@.len() > maximum_bytes ==> kept == Err::<Vec<u8>, HostPortError>(
            HostPortError::CapacityExceeded,
        ),
        source@.len() <= maximum_bytes ==> match kept {
            Ok(bytes) => bytes@ == source@,
            Err(error) => error == HostPortError::AllocationFailed && memory::bytes_refused(
                source@.len() as int,
            ),
        },
{
    try_copy_encoded(&source, maximum_bytes)
}

} // verus!
