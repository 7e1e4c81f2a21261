//! Values that are wiped when they are dropped.
use vstd::prelude::*;

use zeroize::{Zeroize, Zeroizing};

verus! {

/// Text that is overwritten with zeros when it is dropped.
///
/// Holds a `zeroize::Zeroizing<String>`.
#[verifier::external_body]
pub struct SecretText {
    inner: Zeroizing<String>,
}

/// The characters that a [`SecretText`] holds.
pub uninterp spec fn secret_text(value: SecretText) -> Seq<char>;

/// `zeroize::Zeroizing::new`: takes the text over unchanged.
#[verifier::external_body]
fn protect_text(value: String) -> (protected: SecretText)
    ensures
        secret_text(protected) == value@,
{
    SecretText { inner: Zeroizing::new(value) }
}

/// `Deref` of `zeroize::Zeroizing`: lends the text that it was made from.
#[verifier::external_body]
fn lend_text(value: &SecretText) -> (text: &str)
    ensures
        text@ == secret_text(*value),
{
    value.inner.as_str()
}

impl View for SecretText {
    type V = Seq<char>;

    open spec fn view(&self) -> Seq<char> {
        secret_text(*self)
    }
}

impl SecretText {
    /// Takes the text over.
    pub fn new(value: String) -> (protected: Self)
        ensures
            protected@ == value@,
    {
        protect_text(value)
    }

    /// Lends the text.
    pub fn as_str(&self) -> (text: &str)
        ensures
            text@ == self@,
    {
        lend_text(self)
    }
}

/// Bytes that are overwritten with zeros when they are dropped.
///
/// Holds a `zeroize::Zeroizing<Vec<u8>>`.
#[verifier::external_body]
pub struct SecretBytes {
    inner: Zeroizing<Vec<u8>>,
}

/// The bytes that a [`SecretBytes`] holds.
pub uninterp spec fn secret_bytes(value: SecretBytes) -> Seq<u8>;

/// `zeroize::Zeroizing::new`: takes the bytes over unchanged.
#[verifier::external_body]
fn protect_bytes(value: Vec<u8>) -> (protected: SecretBytes)
    ensures
        secret_bytes(protected) == value@,
{
    SecretBytes { inner: Zeroizing::new(value) }
}

/// `Deref` of `zeroize::Zeroizing`: lends the bytes that it was made from.
#[verifier::external_body]
fn lend_bytes(value: &SecretBytes) -> (bytes: &[u8])
    ensures
        bytes@ == secret_bytes(*value),
{
    value.inner.as_slice()
}

impl View for SecretBytes {
    type V = Seq<u8>;

    open spec fn view(&self) -> Seq<u8> {
        secret_bytes(*self)
    }
}

impl SecretBytes {
    /// Takes the bytes over.
    pub fn new(value: Vec<u8>) -> (protected: Self)
        ensures
            protected@ == value@,
    {
        protect_bytes(value)
    }

    /// Lends the bytes.
    pub fn as_slice(&self) -> (bytes: &[u8])
        ensures
            bytes@ == self@,
    {
        lend_bytes(self)
    }
}

/// A 32-byte key or digest that is overwritten with zeros when it is dropped.
///
/// Holds a `zeroize::Zeroizing<[u8; 32]>`.
#[verifier::external_body]
pub struct SecretKey {
    inner: Zeroizing<[u8; 32]>,
}

/// The bytes that a [`SecretKey`] holds.
pub uninterp spec fn secret_key(value: SecretKey) -> Seq<u8>;

/// `zeroize::Zeroizing::new`: takes the array over unchanged.
#[verifier::external_body]
fn protect_key(value: [u8; 32]) -> (protected: SecretKey)
    ensures
        secret_key(protected) == value@,
{
    SecretKey { inner: Zeroizing::new(value) }
}

/// `Deref` of `zeroize::Zeroizing`: lends the array that it was made from.
#[verifier::external_body]
fn lend_key(value: &SecretKey) -> (bytes: &[u8; 32])
    ensures
        bytes@ == secret_key(*value),
{
    &value.inner
}

impl View for SecretKey {
    type V = Seq<u8>;

    open spec fn view(&self) -> Seq<u8> {
        secret_key(*self)
    }
}

impl SecretKey {
    /// Takes the array over.
    pub fn new(value: [u8; 32]) -> (protected: Self)
        ensures
            protected@ == value@,
    {
        protect_key(value)
    }

    /// Lends the array.
    pub fn as_array(&self) -> (bytes: &[u8; 32])
        ensures
            bytes@ == self@,
    {
        lend_key(self)
    }
}

/// `zeroize::Zeroize` for `Vec<u8>`: overwrites every byte of the allocation
/// and leaves the vector empty.
#[verifier::external_body]
pub(crate) fn wipe_bytes(value: &mut Vec<u8>)
    ensures
        final(value)@ == Seq::<u8>::empty(),
{
    value.zeroize();
}

/// `zeroize::Zeroize` for `String`: overwrites every byte of the allocation
/// and leaves the text empty.
#[verifier::external_body]
pub(crate) fn wipe_text(value: &mut String)
    ensures
        final(value)@ == Seq::<char>::empty(),
{
    value.zeroize();
}

/// The BLAKE3 digest of a byte string under a key.
pub uninterp spec fn keyed_digest(key: Seq<u8>, value: Seq<u8>) -> Seq<u8>;

/// `blake3::Hasher::new_keyed`, `update` and `finalize`: the keyed BLAKE3 digest
/// of the whole byte string, which is a function of the key and the bytes. The
/// hasher and the digest are wiped after use.
#[verifier::external_body]
pub(crate) fn digest_with_key(key: &[u8; 32], value: &[u8]) -> (digest: SecretKey)
    ensures
        secret_key(digest) == keyed_digest(key@, value@),
{
    let mut hasher = Zeroizing::new(blake3::Hasher::new_keyed(key));
    hasher.update(value);
    let digest = Zeroizing::new(hasher.finalize());
    SecretKey { inner: Zeroizing::new(*digest.as_bytes()) }
}

/// `constant_time_eq::constant_time_eq_32`: whether two arrays hold the same
/// bytes. That the time it takes does not depend on them is not stated.
#[verifier::external_body]
pub(crate) fn same_in_constant_time(a: &[u8; 32], b: &[u8; 32]) -> (same: bool)
    ensures
        same == (a@ == b@),
{
    constant_time_eq::constant_time_eq_32(a, b)
}

/// `Vec::capacity` of the protected bytes: how many they can be without growing,
/// which is up to the allocator and at least their number.
#[verifier::external_body]
pub(crate) fn secret_capacity(value: &SecretBytes) -> (capacity: usize)
    ensures
        capacity >= secret_bytes(*value).len(),
{
    value.inner.capacity()
}

} // verus!
