//! Identities of operations and the entropy that they and the verifiers need.
use vstd::prelude::*;

use crate::bytes::is_all_zero;
use crate::error::ServiceError;
use crate::operation::OperationId;
use crate::secret::{wipe_bytes, SecretKey};

verus! {

/// Cryptographically secure randomness seam used only for service-owned IDs.
pub trait OperationIdRandom {
    /// Fills part or all of `destination` and reports the exact byte count.
    ///
    /// Returning zero, a count larger than the destination, or an error fails
    /// closed before any operation state or queue capacity is published.
    fn fill(&self, destination: &mut [u8]) -> Result<usize, ServiceError>;
}

/// Operating-system cryptographically secure operation-ID source.
pub struct OsOperationIdRandom;

/// `getrandom::fill`: fills the whole destination with random bytes of the
/// operating system, or fails. It never changes the length of the destination.
#[verifier::external_body]
fn fill_from_system(destination: &mut [u8]) -> (filled: bool)
    ensures
        final(destination)@.len() == old(destination)@.len(),
{
    getrandom::fill(destination).is_ok()
}

/// Whether the operating system, asked to fill a destination, may have answered
/// whether it did.
pub closed spec fn system_may_fill(asked: &mut [u8], filled: bool) -> bool {
    call_ensures(fill_from_system, (asked,), filled)
}

impl OperationIdRandom for OsOperationIdRandom {
    fn fill(&self, destination: &mut [u8]) -> (written: Result<usize, ServiceError>)
        ensures
            written is Ok ==> written->Ok_0 == old(destination)@.len(),
            written is Err ==> written->Err_0 == ServiceError::EntropyUnavailable,
            final(destination)@.len() == old(destination)@.len(),
            written is Ok ==> exists|asked: &mut [u8]|
                {
                    &&& #[trigger] system_may_fill(asked, true)
                    &&& (*asked)@ == old(destination)@
                    &&& (*final(asked))@ == final(destination)@
                },
            written is Err ==> exists|asked: &mut [u8]|
                {
                    &&& #[trigger] system_may_fill(asked, false)
                    &&& (*asked)@ == old(destination)@
                    &&& (*final(asked))@ == final(destination)@
                },
    {
        let length: usize = destination.len();
        let ghost before = destination@;
        let filled = fill_from_system(destination);
        assert(exists|asked: &mut [u8]|
            {
                &&& #[trigger] system_may_fill(asked, filled)
                &&& (*asked)@ == before
                &&& (*final(asked))@ == destination@
            }) by {
            let asked = choose|asked: &mut [u8]|
                {
                    &&& (*asked)@ == before
                    &&& (*final(asked))@ == destination@
                    &&& #[trigger] call_ensures(fill_from_system, (asked,), filled)
                };
            assert(system_may_fill(asked, filled));
        }
        if filled {
            Ok(length)
        } else {
            Err(ServiceError::EntropyUnavailable)
        }
    }
}

fn zeroed(length: usize) -> (bytes: Vec<u8>)
    ensures
        bytes@.len() == length,
{
    let mut bytes: Vec<u8> = Vec::new();
    while bytes.len() < length
        invariant
            bytes@.len() <= length,
        decreases length - bytes@.len(),
    {
        bytes.push(0);
    }
    bytes
}

/// Whether a source that had `remaining` bytes to fill kept to its contract.
pub open spec fn is_valid_fill(written: Result<usize, ServiceError>, remaining: nat) -> bool {
    written is Ok && 0 < written->Ok_0 <= remaining
}

/// Decides about what a source reported: how many bytes count.
pub fn accept_fill(written: Result<usize, ServiceError>, remaining: usize) -> (accepted: Result<
    usize,
    ServiceError,
>)
    ensures
        accepted == if is_valid_fill(written, remaining as nat) {
            written
        } else if written is Err {
            written
        } else {
            Err(ServiceError::EntropyUnavailable)
        },
{
    match written {
        Err(error) => Err(error),
        Ok(count) => if count == 0 || count > remaining {
            Err(ServiceError::EntropyUnavailable)
        } else {
            Ok(count)
        },
    }
}

/// Whether the calls of a source, each for what `length` bytes still miss, may have
/// reported as many bytes as these parts have.
pub open spec fn may_report<R: OperationIdRandom>(
    random: &R,
    calls: Seq<&mut [u8]>,
    parts: Seq<Seq<u8>>,
    length: nat,
) -> bool {
    &&& calls.len() == parts.len()
    &&& forall|i: int|
        #![trigger calls[i]]
        0 <= i < calls.len() ==> {
            &&& (*calls[i])@.len() == length - parts.take(i).flatten().len()
            &&& 0 < parts[i].len() <= (*calls[i])@.len()
            &&& call_ensures(
                R::fill,
                (random, calls[i]),
                Ok::<usize, ServiceError>(parts[i].len() as usize),
            )
        }
}

/// Whether a source, asked for a nonce as often as there are draws, may have reported
/// nothing but zeros each time.
pub open spec fn may_report_zeros<R: OperationIdRandom>(
    random: &R,
    draws: Seq<Seq<&mut [u8]>>,
    reports: Seq<Seq<Seq<u8>>>,
) -> bool {
    &&& draws.len() == reports.len()
    &&& forall|k: int|
        #![trigger draws[k]]
        0 <= k < draws.len() ==> may_report(random, draws[k], reports[k], 8)
            && reports[k].flatten() == Seq::new(8, |i: int| 0u8)
}

/// Asks a source for exactly `length` bytes, in as many parts as it takes.
pub fn fill_exact<R: OperationIdRandom>(random: &R, length: usize) -> (filled: Result<
    Vec<u8>,
    ServiceError,
>)
    ensures
        filled matches Ok(filled) ==> filled@.len() == length && exists|
            calls: Seq<&mut [u8]>,
            parts: Seq<Seq<u8>>,
        |
            {
                &&& #[trigger] may_report(random, calls, parts, length as nat)
                &&& forall|i: int|
                    #![trigger calls[i]]
                    0 <= i < calls.len() ==> parts[i].is_prefix_of((*final(calls[i]))@)
                &&& filled@ == parts.flatten()
            },
        filled matches Err(error) ==> exists|
            calls: Seq<&mut [u8]>,
            parts: Seq<Seq<u8>>,
            asked: &mut [u8],
            written: Result<usize, ServiceError>,
        |
            {
                &&& #[trigger] may_report(random, calls, parts, length as nat)
                &&& 0 < (*asked)@.len() == length - parts.flatten().len()
                &&& #[trigger] call_ensures(R::fill, (random, asked), written)
                &&& if is_valid_fill(written, (*asked)@.len()) {
                    (*final(asked))@.len() < written->Ok_0 && error
                        == ServiceError::EntropyUnavailable
                } else {
                    error == if written is Err {
                        written->Err_0
                    } else {
                        ServiceError::EntropyUnavailable
                    }
                }
            },
        length == 0 ==> filled is Ok,
{
    let mut bytes: Vec<u8> = Vec::new();
    let ghost mut parts: Seq<Seq<u8>> = Seq::empty();
    assert(may_report(random, Seq::<&mut [u8]>::empty(), parts, length as nat));
    while bytes.len() < length
        invariant
            bytes@.len() <= length,
            bytes@ == parts.flatten(),
            exists|calls: Seq<&mut [u8]>|
                {
                    &&& #[trigger] may_report(random, calls, parts, length as nat)
                    &&& forall|i: int|
                        #![trigger calls[i]]
                        0 <= i < calls.len() ==> parts[i].is_prefix_of((*final(calls[i]))@)
                },
        decreases length - bytes@.len(),
    {
        let remaining: usize = length - bytes.len();
        let mut part = zeroed(remaining);
        let written = random.fill(part.as_mut_slice());
        let count: usize = match accept_fill(written, remaining) {
            Ok(count) => count,
            Err(error) => return Err(error),
        };
        if part.len() < count {
            return Err(ServiceError::EntropyUnavailable);
        }
        let ghost before = bytes@;
        assert(exists|calls: Seq<&mut [u8]>|
            {
                &&& #[trigger] may_report(
                    random,
                    calls,
                    parts.push(part@.take(count as int)),
                    length as nat,
                )
                &&& forall|i: int|
                    #![trigger calls[i]]
                    0 <= i < calls.len() ==> parts.push(part@.take(count as int))[i].is_prefix_of(
                        (*final(calls[i]))@,
                    )
            }) by {
            let calls = choose|calls: Seq<&mut [u8]>|
                {
                    &&& #[trigger] may_report(random, calls, parts, length as nat)
                    &&& forall|i: int|
                        #![trigger calls[i]]
                        0 <= i < calls.len() ==> parts[i].is_prefix_of((*final(calls[i]))@)
                };
            let asked = choose|asked: &mut [u8]|
                {
                    &&& (*asked)@.len() == remaining
                    &&& (*final(asked))@ == part@
                    &&& #[trigger] call_ensures(R::fill, (random, asked), written)
                };
            let more = parts.push(part@.take(count as int));
            let asks = calls.push(asked);
            assert forall|i: int|
                #![trigger asks[i]]
                0 <= i < asks.len() implies {
                &&& (*asks[i])@.len() == length - more.take(i).flatten().len()
                &&& 0 < more[i].len() <= (*asks[i])@.len()
                &&& call_ensures(
                    R::fill,
                    (random, asks[i]),
                    Ok::<usize, ServiceError>(more[i].len() as usize),
                )
            } by {
                assert(more.take(i) =~= parts.take(i));
                if i < calls.len() {
                    assert(asks[i] == calls[i]);
                    assert(more[i] == parts[i]);
                } else {
                    assert(parts.take(i) =~= parts);
                }
            }
            assert(may_report(random, asks, more, length as nat));
        }
        let mut index: usize = 0;
        while index < count
            invariant
                index <= count <= part@.len(),
                bytes@ == before + part@.take(index as int),
            decreases count - index,
        {
            bytes.push(part[index]);
            assert(part@.take(index + 1) =~= part@.take(index as int).push(part@[index as int]));
            index += 1;
        }
        proof {
            parts.lemma_flatten_push(part@.take(count as int));
            parts = parts.push(part@.take(count as int));
        }
    }
    Ok(bytes)
}

/// The secret key that drawn bytes make. The bytes are wiped.
pub fn key_of(bytes: &mut Vec<u8>) -> (key: SecretKey)
    requires
        old(bytes)@.len() == 32,
    ensures
        key@ == old(bytes)@,
        final(bytes)@ == Seq::<u8>::empty(),
{
    let mut key: [u8; 32] = [0;32];
    let mut index: usize = 0;
    while index < 32
        invariant
            bytes@ == old(bytes)@,
            bytes@.len() == 32,
            index <= 32,
            forall|i: int| 0 <= i < index ==> #[trigger] key@[i] == bytes@[i],
        decreases 32 - index,
    {
        key[index] = bytes[index];
        index += 1;
    }
    assert(key@ =~= bytes@);
    wipe_bytes(bytes);
    SecretKey::new(key)
}

/// Draws a secret key from the operating system: it is what the system left in
/// room for a key.
pub fn fill_security_entropy() -> (key: Result<SecretKey, ServiceError>)
    ensures
        key matches Ok(key) ==> exists|asked: &mut [u8]|
            {
                &&& #[trigger] system_may_fill(asked, true)
                &&& (*asked)@.len() == 32
                &&& (*final(asked))@ == key@
            },
        key matches Err(error) ==> error == ServiceError::EntropyUnavailable && exists|
            asked: &mut [u8],
        |
            {
                &&& #[trigger] system_may_fill(asked, false)
                &&& (*asked)@.len() == 32
            },
{
    let mut bytes = zeroed(32);
    let filled = fill_from_system(bytes.as_mut_slice());
    assert(exists|asked: &mut [u8]|
        {
            &&& #[trigger] system_may_fill(asked, filled)
            &&& (*asked)@.len() == 32
            &&& (*final(asked))@ == bytes@
        }) by {
        let asked = choose|asked: &mut [u8]|
            {
                &&& (*asked)@.len() == 32
                &&& (*final(asked))@ == bytes@
                &&& #[trigger] call_ensures(fill_from_system, (asked,), filled)
            };
        assert(system_may_fill(asked, filled));
    }
    if !filled {
        return Err(ServiceError::EntropyUnavailable);
    }
    Ok(key_of(&mut bytes))
}

/// Byte `index` of a number written most significant byte first.
pub open spec fn big_endian_byte(value: u64, index: int) -> u8 {
    (value as int / place_value(index) % 256) as u8
}

/// The weight of byte `index` of eight.
pub open spec fn place_value(index: int) -> int {
    if index == 0 {
        0x100_0000_0000_0000
    } else if index == 1 {
        0x1_0000_0000_0000
    } else if index == 2 {
        0x100_0000_0000
    } else if index == 3 {
        0x1_0000_0000
    } else if index == 4 {
        0x100_0000
    } else if index == 5 {
        0x1_0000
    } else if index == 6 {
        0x100
    } else {
        1
    }
}

/// The bytes of an identity: the nonce of the service, then the sequence
/// number, most significant byte first.
pub open spec fn identity_bytes(nonce: [u8; 8], sequence: u64) -> Seq<u8> {
    nonce@ + Seq::new(8, |i: int| big_endian_byte(sequence, i))
}

/// The state that identities are made from.
pub struct IdentityState {
    nonce: Option<[u8; 8]>,
    next: u64,
}

/// Contents of an [`IdentityState`].
pub struct IdentityModel {
    pub nonce: Option<[u8; 8]>,
    pub next: u64,
}

impl View for IdentityState {
    type V = IdentityModel;

    closed spec fn view(&self) -> IdentityModel {
        IdentityModel { nonce: self.nonce, next: self.next }
    }
}

/// Why no identity can be made.
pub open spec fn is_exhausted(identity: IdentityModel, issued_capacity: u64) -> bool {
    identity.nonce is None || identity.next == issued_capacity || identity.next == u64::MAX
}

/// Whether a nonce serves a service: it is not all zero.
pub open spec fn is_usable_nonce(nonce: [u8; 8]) -> bool {
    exists|i: int| 0 <= i < 8 && nonce@[i] != 0
}

/// The identities after a nonce was drawn.
pub open spec fn after_nonce(identity: IdentityModel, nonce: [u8; 8]) -> IdentityModel {
    if identity.nonce is None && is_usable_nonce(nonce) {
        IdentityModel { nonce: Some(nonce), ..identity }
    } else {
        identity
    }
}

fn identity_of(nonce: &[u8; 8], sequence: u64) -> (id: OperationId)
    ensures
        id@@ == identity_bytes(*nonce, sequence),
{
    let mut bytes: [u8; 16] = [0;16];
    let mut index: usize = 0;
    while index < 8
        invariant
            index <= 8,
            forall|i: int| 0 <= i < index ==> bytes@[i] == nonce@[i],
        decreases 8 - index,
    {
        bytes[index] = nonce[index];
        index += 1;
    }
    bytes[8] = (sequence / 0x100_0000_0000_0000 % 256) as u8;
    bytes[9] = (sequence / 0x1_0000_0000_0000 % 256) as u8;
    bytes[10] = (sequence / 0x100_0000_0000 % 256) as u8;
    bytes[11] = (sequence / 0x1_0000_0000 % 256) as u8;
    bytes[12] = (sequence / 0x100_0000 % 256) as u8;
    bytes[13] = (sequence / 0x1_0000 % 256) as u8;
    bytes[14] = (sequence / 0x100 % 256) as u8;
    bytes[15] = (sequence % 256) as u8;
    assert(bytes@ =~= identity_bytes(*nonce, sequence));
    OperationId::from_bytes(bytes)
}

impl IdentityState {
    /// The state before the first identity.
    pub fn new() -> (identity: Self)
        ensures
            identity@ == (IdentityModel { nonce: None, next: 0 }),
    {
        IdentityState { nonce: None, next: 0 }
    }

    /// How many identities were issued.
    pub fn issued(&self) -> (issued: u64)
        ensures
            issued == self@.next,
    {
        self.next
    }

    /// Takes a drawn nonce, unless it is all zero.
    pub fn accept_nonce(&mut self, nonce: [u8; 8]) -> (accepted: bool)
        ensures
            accepted == (old(self)@.nonce is None && is_usable_nonce(nonce)),
            final(self)@ == after_nonce(old(self)@, nonce),
    {
        if self.nonce.is_some() || is_all_zero(&nonce) {
            return false;
        }
        self.nonce = Some(nonce);
        true
    }

    /// The identity that would be issued next. Nothing is issued by looking.
    pub fn candidate(&self, issued_capacity: u64) -> (candidate: Result<OperationId, ServiceError>)
        ensures
            is_exhausted(self@, issued_capacity) ==> candidate == Err::<OperationId, ServiceError>(
                ServiceError::IdentifierExhausted,
            ),
            !is_exhausted(self@, issued_capacity) ==> candidate is Ok && candidate->Ok_0@@
                == identity_bytes(self@.nonce->0, self@.next),
    {
        match &self.nonce {
            None => Err(ServiceError::IdentifierExhausted),
            Some(nonce) => if self.next == issued_capacity || self.next == u64::MAX {
                Err(ServiceError::IdentifierExhausted)
            } else {
                Ok(identity_of(nonce, self.next))
            },
        }
    }

    /// Whether a nonce is drawn after so many draws that were all zero.
    pub fn draws_again(&self, zero_draws: usize, id_retries: usize) -> (draws: bool)
        ensures
            draws == (self@.nonce is None && zero_draws < id_retries),
    {
        self.nonce.is_none() && zero_draws < id_retries
    }

    /// Draws the nonce of the service, where it has none, and looks at the next
    /// identity. A failing source leaves nothing behind, and one that reports
    /// nothing but zeros is given up after `id_retries` draws.
    pub fn candidate_id<R: OperationIdRandom>(
        &mut self,
        random: &R,
        issued_capacity: u64,
        id_retries: usize,
    ) -> (candidate: Result<OperationId, ServiceError>)
        ensures
            final(self)@.next == old(self)@.next,
            old(self)@.nonce is Some ==> final(self)@ == old(self)@,
            final(self)@.nonce is Some && old(self)@.nonce is None ==> id_retries > 0
                && is_usable_nonce(final(self)@.nonce->0),
            final(self)@.nonce is Some && old(self)@.nonce is None ==> exists|
                calls: Seq<&mut [u8]>,
                parts: Seq<Seq<u8>>,
            |
                {
                    &&& #[trigger] may_report(random, calls, parts, 8)
                    &&& forall|i: int|
                        #![trigger calls[i]]
                        0 <= i < calls.len() ==> parts[i].is_prefix_of((*final(calls[i]))@)
                    &&& final(self)@.nonce->0@ == parts.flatten()
                },
            candidate is Ok ==> !is_exhausted(final(self)@, issued_capacity) && candidate->Ok_0@@
                == identity_bytes(final(self)@.nonce->0, final(self)@.next),
            final(self)@.nonce is Some || id_retries == 0 ==> (candidate is Ok <==> !is_exhausted(
                final(self)@,
                issued_capacity,
            )) && (candidate is Err ==> candidate->Err_0 == ServiceError::IdentifierExhausted),
            final(self)@.nonce is None ==> candidate is Err && {
                ||| candidate->Err_0 == ServiceError::IdentifierExhausted && exists|
                    draws: Seq<Seq<&mut [u8]>>,
                    reports: Seq<Seq<Seq<u8>>>,
                |
                    {
                        &&& #[trigger] may_report_zeros(random, draws, reports)
                        &&& draws.len() == id_retries
                        &&& forall|k: int, i: int|
                            #![trigger draws[k][i]]
                            0 <= k < draws.len() && 0 <= i < draws[k].len()
                                ==> reports[k][i].is_prefix_of((*final(draws[k][i]))@)
                    }
                ||| exists|
                    calls: Seq<&mut [u8]>,
                    parts: Seq<Seq<u8>>,
                    asked: &mut [u8],
                    written: Result<usize, ServiceError>,
                |
                    {
                        &&& #[trigger] may_report(random, calls, parts, 8)
                        &&& 0 < (*asked)@.len() == 8 - parts.flatten().len()
                        &&& #[trigger] call_ensures(R::fill, (random, asked), written)
                        &&& if is_valid_fill(written, (*asked)@.len()) {
                            (*final(asked))@.len() < written->Ok_0 && candidate->Err_0
                                == ServiceError::EntropyUnavailable
                        } else {
                            candidate->Err_0 == if written is Err {
                                written->Err_0
                            } else {
                                ServiceError::EntropyUnavailable
                            }
                        }
                    }
            },
    {
        let mut tries: usize = 0;
        assert(may_report_zeros(
            random,
            Seq::<Seq<&mut [u8]>>::empty(),
            Seq::<Seq<Seq<u8>>>::empty(),
        ));
        while self.draws_again(tries, id_retries)
            invariant
                self@.next == old(self)@.next,
                old(self)@.nonce is Some ==> self@ == old(self)@,
                self@.nonce is Some && old(self)@.nonce is None ==> tries > 0 && is_usable_nonce(
                    self@.nonce->0,
                ),
                self@.nonce is Some && old(self)@.nonce is None ==> exists|
                    calls: Seq<&mut [u8]>,
                    parts: Seq<Seq<u8>>,
                |
                    {
                        &&& #[trigger] may_report(random, calls, parts, 8)
                        &&& forall|i: int|
                            #![trigger calls[i]]
                            0 <= i < calls.len() ==> parts[i].is_prefix_of((*final(calls[i]))@)
                        &&& self@.nonce->0@ == parts.flatten()
                    },
                self@.nonce is None ==> exists|
                    draws: Seq<Seq<&mut [u8]>>,
                    reports: Seq<Seq<Seq<u8>>>,
                |
                    {
                        &&& #[trigger] may_report_zeros(random, draws, reports)
                        &&& draws.len() == tries
                        &&& forall|k: int, i: int|
                            #![trigger draws[k][i]]
                            0 <= k < draws.len() && 0 <= i < draws[k].len()
                                ==> reports[k][i].is_prefix_of((*final(draws[k][i]))@)
                    },
                tries <= id_retries,
            decreases id_retries - tries,
        {
            let bytes = match fill_exact(random, 8) {
                Ok(bytes) => bytes,
                Err(error) => return Err(error),
            };
            let nonce: [u8; 8] = [
                bytes[0],
                bytes[1],
                bytes[2],
                bytes[3],
                bytes[4],
                bytes[5],
                bytes[6],
                bytes[7],
            ];
            assert(nonce@ =~= bytes@);
            let accepted = self.accept_nonce(nonce);
            proof {
                if !accepted {
                    assert(nonce@ =~= Seq::new(8, |i: int| 0u8));
                    let (calls, parts) = choose|calls: Seq<&mut [u8]>, parts: Seq<Seq<u8>>|
                        {
                            &&& #[trigger] may_report(random, calls, parts, 8)
                            &&& forall|i: int|
                                #![trigger calls[i]]
                                0 <= i < calls.len() ==> parts[i].is_prefix_of((*final(calls[i]))@)
                            &&& bytes@ == parts.flatten()
                        };
                    let (draws, reports) = choose|
                        draws: Seq<Seq<&mut [u8]>>,
                        reports: Seq<Seq<Seq<u8>>>,
                    |
                        {
                            &&& #[trigger] may_report_zeros(random, draws, reports)
                            &&& draws.len() == tries
                            &&& forall|k: int, i: int|
                                #![trigger draws[k][i]]
                                0 <= k < draws.len() && 0 <= i < draws[k].len()
                                    ==> reports[k][i].is_prefix_of((*final(draws[k][i]))@)
                        };
                    assert(may_report_zeros(random, draws.push(calls), reports.push(parts)));
                }
            }
            tries += 1;
        }
        self.candidate(issued_capacity)
    }

    /// Issues the identity that was looked at.
    pub fn issue(&mut self)
        requires
            old(self)@.next < u64::MAX,
        ensures
            final(self)@ == (IdentityModel { next: (old(self)@.next + 1) as u64, ..old(self)@ }),
    {
        self.next = self.next + 1;
    }
}

} // verus!
