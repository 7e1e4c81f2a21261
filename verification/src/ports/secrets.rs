//! Recovery secrets, their verifiers and device keys.
use vstd::prelude::*;

use crate::memory;
use crate::ports::rehome;
use crate::ports::rehome::{is_zero_free, try_rehome_bytes};
use crate::ports::{HostPortError, MAX_DEVICE_KEY_REFERENCE_BYTES, MAX_RECOVERY_SECRET_BYTES};
use crate::secret;
use crate::secret::{
    digest_with_key, same_in_constant_time, secret_capacity, wipe_bytes, SecretBytes, SecretKey,
};
use crate::session::VaultId;

verus! {

/// `std::str::from_utf8`: succeeds exactly on valid UTF-8.
#[verifier::external_body]
fn is_utf8(bytes: &[u8]) -> (valid: bool)
    ensures
        valid == vstd::utf8::valid_utf8(bytes@),
{
    std::str::from_utf8(bytes).is_ok()
}

/// Byte strings that can be a recovery secret: UTF-8 text within the bound and
/// without a zero byte.
pub open spec fn is_recovery_secret(bytes: Seq<u8>) -> bool {
    &&& rehome::is_bounded(bytes, MAX_RECOVERY_SECRET_BYTES as nat)
    &&& rehome::has_no_zero(bytes)
    &&& vstd::utf8::valid_utf8(bytes)
}

/// Recovery credential owner.
pub struct RecoverySecretInput {
    value: SecretBytes,
}

impl View for RecoverySecretInput {
    type V = Seq<u8>;

    closed spec fn view(&self) -> Seq<u8> {
        self.value@
    }
}

/// The verifier of a secret under a key.
pub open spec fn recovery_verifier(key: Seq<u8>, value: Seq<u8>) -> Seq<u8> {
    secret::keyed_digest(key, value)
}

impl RecoverySecretInput {
    /// Whether a byte string can be a recovery secret.
    pub fn accepts(bytes: &[u8]) -> (accepted: bool)
        ensures
            accepted == is_recovery_secret(bytes@),
    {
        bytes.len() > 0 && bytes.len() <= MAX_RECOVERY_SECRET_BYTES && is_zero_free(bytes)
            && is_utf8(bytes)
    }

    /// Keeps an accepted secret and wipes the source.
    pub fn from_protected_bytes(bytes: Vec<u8>) -> (secret: Result<Self, HostPortError>)
        ensures
            !is_recovery_secret(bytes@) ==> secret is Err && (secret->Err_0
                == HostPortError::InvalidInput || secret->Err_0
                == HostPortError::AllocationFailed && memory::bytes_refused(
                bytes@.len() as int,
            )),
            !(rehome::is_bounded(bytes@, MAX_RECOVERY_SECRET_BYTES as nat)
                && rehome::has_no_zero(bytes@)) ==> secret == Err::<Self, HostPortError>(
                HostPortError::InvalidInput,
            ),
            is_recovery_secret(bytes@) ==> match secret {
                Ok(secret) => secret@ == bytes@,
                Err(error) => error == HostPortError::AllocationFailed && memory::bytes_refused(
                    bytes@.len() as int,
                ),
            },
    {
        let mut bytes = bytes;
        if bytes.len() == 0 || bytes.len() > MAX_RECOVERY_SECRET_BYTES || !is_zero_free(
            bytes.as_slice(),
        ) {
            wipe_bytes(&mut bytes);
            return Err(HostPortError::InvalidInput);
        }
        let retained = match try_rehome_bytes(&mut bytes, MAX_RECOVERY_SECRET_BYTES) {
            Ok(retained) => retained,
            Err(error) => return Err(error),
        };
        if !is_utf8(retained.as_slice()) {
            let mut retained = retained;
            wipe_bytes(&mut retained);
            return Err(HostPortError::InvalidInput);
        }
        Ok(RecoverySecretInput { value: SecretBytes::new(retained) })
    }

    /// Takes an accepted secret over without a copy.
    pub fn from_zeroizing_bytes(bytes: SecretBytes) -> (secret: Result<Self, HostPortError>)
        ensures
            secret is Ok <==> is_recovery_secret(bytes@),
            secret is Ok ==> secret->Ok_0@ == bytes@,
            secret is Err ==> secret->Err_0 == HostPortError::InvalidInput,
    {
        if RecoverySecretInput::accepts(bytes.as_slice()) {
            Ok(RecoverySecretInput { value: bytes })
        } else {
            Err(HostPortError::InvalidInput)
        }
    }

    /// Hands the bytes to the store.
    pub fn into_bytes(self) -> (bytes: SecretBytes)
        ensures
            bytes@ == self@,
    {
        self.value
    }

    /// Hands the bytes to the presentation, with their verifier.
    pub fn into_presentation_payload(self, key: &SecretKey) -> (parts: (SecretBytes, SecretKey))
        ensures
            parts.0@ == self@,
            parts.1@ == recovery_verifier(key@, self@),
    {
        let verifier = digest_with_key(key.as_array(), self.value.as_slice());
        (self.value, verifier)
    }

    /// Keeps the secret where its verifier is the expected one.
    pub fn verify_and_retain(self, key: &SecretKey, expected: &SecretKey) -> (verified: Result<
        Self,
        (),
    >)
        ensures
            verified is Ok <==> recovery_verifier(key@, self@) == expected@,
            verified is Ok ==> verified->Ok_0@ == self@,
    {
        let actual = digest_with_key(key.as_array(), self.value.as_slice());
        if same_in_constant_time(actual.as_array(), expected.as_array()) {
            Ok(self)
        } else {
            Err(())
        }
    }

    /// Spends the secret on its verifier.
    pub fn into_verifier(self, key: &SecretKey) -> (verifier: SecretKey)
        ensures
            verifier@ == recovery_verifier(key@, self@),
    {
        digest_with_key(key.as_array(), self.value.as_slice())
    }

    /// Bytes that the allocation of the secret can hold.
    pub fn retained_capacity(&self) -> (capacity: usize)
        ensures
            capacity >= self@.len(),
    {
        secret_capacity(&self.value)
    }
}

/// What a confirmation is held against.
pub struct SecretVerifier {
    key: SecretKey,
    expected: SecretKey,
}

impl View for SecretVerifier {
    type V = (Seq<u8>, Seq<u8>);

    closed spec fn view(&self) -> (Seq<u8>, Seq<u8>) {
        (self.key@, self.expected@)
    }
}

/// Whether a verifier accepts a secret.
pub open spec fn accepts_secret(verifier: (Seq<u8>, Seq<u8>), secret: Seq<u8>) -> bool {
    recovery_verifier(verifier.0, secret) == verifier.1
}

impl SecretVerifier {
    pub fn new(key: SecretKey, expected: SecretKey) -> (verifier: Self)
        ensures
            verifier@ == (key@, expected@),
    {
        SecretVerifier { key, expected }
    }

    /// The verifier of a secret that is spent on it.
    pub fn of(secret: RecoverySecretInput, key: SecretKey) -> (verifier: Self)
        ensures
            verifier@ == (key@, recovery_verifier(key@, secret@)),
    {
        let expected = secret.into_verifier(&key);
        SecretVerifier { key, expected }
    }

    /// Keeps a confirmation that the verifier accepts.
    pub fn verify(&self, confirmation: RecoverySecretInput) -> (verified: Result<
        RecoverySecretInput,
        (),
    >)
        ensures
            verified is Ok <==> accepts_secret(self@, confirmation@),
            verified is Ok ==> verified->Ok_0@ == confirmation@,
    {
        confirmation.verify_and_retain(&self.key, &self.expected)
    }
}

/// Narrow one-call presentation port for recovery material.
pub trait RecoverySecretPresenter {
    fn present(&mut self, secret: &[u8]) -> Result<(), HostPortError>;
}

/// One-time recovery secret presentation owner.
pub struct RecoverySecretPresentation {
    payload: Option<SecretBytes>,
}

/// The bytes of a payload that may be gone.
pub open spec fn payload_bytes(payload: Option<SecretBytes>) -> Option<Seq<u8>> {
    match payload {
        Some(payload) => Some(payload@),
        None => None,
    }
}

impl View for RecoverySecretPresentation {
    type V = Option<Seq<u8>>;

    closed spec fn view(&self) -> Option<Seq<u8>> {
        payload_bytes(self.payload)
    }
}

impl RecoverySecretPresentation {
    /// The presentation of a payload, or of one that was taken back.
    pub fn new(payload: Option<SecretBytes>) -> (presentation: Self)
        ensures
            presentation@ == payload_bytes(payload),
    {
        RecoverySecretPresentation { payload }
    }

    /// Presents the secret. A payload that was taken back is not presented.
    pub fn present_once<P: RecoverySecretPresenter>(self, presenter: &mut P) -> (presented: Result<
        (),
        HostPortError,
    >)
        ensures
            self@ is None ==> presented == Err::<(), HostPortError>(HostPortError::InvalidInput)
                && *final(presenter) == *old(presenter),
            self@ is Some ==> exists|used: &mut P, shown: &[u8]|
                {
                    &&& *used == *old(presenter)
                    &&& *final(used) == *final(presenter)
                    &&& shown@ == self@->0
                    &&& #[trigger] call_ensures(P::present, (used, shown), presented)
                },
    {
        match self.payload {
            Some(payload) => presenter.present(payload.as_slice()),
            None => Err(HostPortError::InvalidInput),
        }
    }

    /// Bytes that the allocation of the payload can hold.
    pub fn retained_capacity(&self) -> (capacity: Option<usize>)
        ensures
            capacity is Some <==> self@ is Some,
            capacity is Some ==> capacity->0 >= self@->0.len(),
    {
        match &self.payload {
            Some(payload) => Some(secret_capacity(payload)),
            None => None,
        }
    }
}

/// Opaque bounded native device-key reference.
pub struct DeviceKeyReference(SecretBytes);

impl View for DeviceKeyReference {
    type V = Seq<u8>;

    closed spec fn view(&self) -> Seq<u8> {
        self.0@
    }
}

impl DeviceKeyReference {
    /// Keeps a bounded reference.
    pub fn from_bytes(bytes: Vec<u8>) -> (reference: Result<Self, HostPortError>)
        ensures
            !rehome::is_bounded(bytes@, MAX_DEVICE_KEY_REFERENCE_BYTES as nat) ==> reference
                == Err::<Self, HostPortError>(HostPortError::InvalidInput),
            rehome::is_bounded(bytes@, MAX_DEVICE_KEY_REFERENCE_BYTES as nat) ==> match reference {
                Ok(reference) => reference@ == bytes@,
                Err(error) => error == HostPortError::AllocationFailed && memory::bytes_refused(
                    bytes@.len() as int,
                ),
            },
    {
        let mut source = bytes;
        match try_rehome_bytes(&mut source, MAX_DEVICE_KEY_REFERENCE_BYTES) {
            Ok(kept) => Ok(DeviceKeyReference(SecretBytes::new(kept))),
            Err(error) => Err(error),
        }
    }

    pub fn as_bytes(&self) -> (bytes: &[u8])
        ensures
            bytes@ == self@,
    {
        self.0.as_slice()
    }

    /// Bytes that the allocation of the reference can hold.
    pub fn retained_capacity(&self) -> (capacity: usize)
        ensures
            capacity >= self@.len(),
    {
        secret_capacity(&self.0)
    }
}

/// Protected native device wrapping key.
pub struct DeviceUnlockSecret(SecretBytes);

impl View for DeviceUnlockSecret {
    type V = Seq<u8>;

    closed spec fn view(&self) -> Seq<u8> {
        self.0@
    }
}

impl DeviceUnlockSecret {
    /// Takes over the bytes of a wrapping key that the key rules accepted.
    pub fn try_from_protected_bytes(bytes: Vec<u8>, accepted: bool) -> (secret: Result<
        Self,
        HostPortError,
    >)
        ensures
            accepted ==> secret is Ok && secret->Ok_0@ == bytes@,
            !accepted ==> secret == Err::<Self, HostPortError>(HostPortError::InvalidInput),
    {
        if accepted {
            return Ok(DeviceUnlockSecret(SecretBytes::new(bytes)));
        }
        let mut bytes = bytes;
        wipe_bytes(&mut bytes);
        Err(HostPortError::InvalidInput)
    }
}

/// Native provider enrollment output.
pub struct EnrolledDeviceKey {
    reference: DeviceKeyReference,
    wrapping_key: DeviceUnlockSecret,
}

impl View for EnrolledDeviceKey {
    type V = (Seq<u8>, Seq<u8>);

    closed spec fn view(&self) -> (Seq<u8>, Seq<u8>) {
        (self.reference@, self.wrapping_key@)
    }
}

impl EnrolledDeviceKey {
    pub fn new(reference: DeviceKeyReference, wrapping_key: DeviceUnlockSecret) -> (enrolled: Self)
        ensures
            enrolled@ == (reference@, wrapping_key@),
    {
        EnrolledDeviceKey { reference, wrapping_key }
    }

    pub fn reference(&self) -> (reference: &DeviceKeyReference)
        ensures
            reference@ == self@.0,
    {
        &self.reference
    }
}

/// Native store of device keys.
pub trait DeviceUnlockProvider {
    fn enroll(&self, vault: VaultId) -> Result<EnrolledDeviceKey, HostPortError>;

    fn unlock(&self, reference: &DeviceKeyReference) -> Result<DeviceUnlockSecret, HostPortError>;

    fn remove(&self, reference: &DeviceKeyReference) -> Result<(), HostPortError>;
}

/// Provider that always requires recovery unlock.
pub struct UnavailableDeviceUnlockProvider;

impl DeviceUnlockProvider for UnavailableDeviceUnlockProvider {
    fn enroll(&self, vault: VaultId) -> (enrolled: Result<EnrolledDeviceKey, HostPortError>)
        ensures
            enrolled == Err::<EnrolledDeviceKey, HostPortError>(HostPortError::Unavailable),
    {
        Err(HostPortError::Unavailable)
    }

    fn unlock(&self, reference: &DeviceKeyReference) -> (unlocked: Result<
        DeviceUnlockSecret,
        HostPortError,
    >)
        ensures
            unlocked == Err::<DeviceUnlockSecret, HostPortError>(HostPortError::Unavailable),
    {
        Err(HostPortError::Unavailable)
    }

    fn remove(&self, reference: &DeviceKeyReference) -> (removed: Result<(), HostPortError>)
        ensures
            removed == Err::<(), HostPortError>(HostPortError::Unavailable),
    {
        Err(HostPortError::Unavailable)
    }
}

} // verus!
