//! Requests to the repository of a vault, and what the repository decides of
//! them itself.
use vstd::prelude::*;

use crate::bytes::{is_all_zero, same_bytes};
use crate::memory;
use crate::memory::{reserve_vec, text_capacity};
use crate::ports::paths;
use crate::ports::paths::{NativePath, PathModel};
use crate::ports::rehome;
use crate::ports::rehome::{is_zero_free, try_rehome_string};
use crate::ports::secrets::RecoverySecretInput;
use crate::ports::workspace::WorkspaceId;
use crate::ports::{HostPortError, MAX_NATIVE_PATH_BYTES};
use crate::session::errors;
use crate::session::errors::{
    map_host_repository_error, map_store_error, RepositoryPortError, StoreFailure,
};
use crate::session::workspaces::MAX_ACTIVE_WORKSPACES;
use crate::session::VaultId;

verus! {

/// Maximum bytes of the label of a device.
pub const MAX_DEVICE_LABEL_BYTES: usize = 256;

/// Where a recovery credential comes from.
#[derive(Clone, Copy, Debug, PartialEq, Eq, Structural)]
pub enum RecoverySecretPolicy {
    Generated,
    CustomV1,
}

/// Accepted risk of offline guessing.
pub struct OfflineGuessingRiskAcknowledgement {
    version: u8,
}

impl View for OfflineGuessingRiskAcknowledgement {
    type V = u8;

    closed spec fn view(&self) -> u8 {
        self.version
    }
}

impl OfflineGuessingRiskAcknowledgement {
    pub fn version(&self) -> (version: u8)
        ensures
            version == self@,
    {
        self.version
    }
}

/// Versioned safe disclosure that must be consumed to accept custom-secret risk.
pub struct OfflineGuessingRiskDisclosure {
    version: u8,
}

impl View for OfflineGuessingRiskDisclosure {
    type V = u8;

    closed spec fn view(&self) -> u8 {
        self.version
    }
}

impl OfflineGuessingRiskDisclosure {
    /// The disclosure of the one policy that there is.
    pub fn try_for_policy(version: u16) -> (disclosure: Result<Self, RepositoryPortError>)
        ensures
            match disclosure {
                Ok(disclosure) => version == 1 && disclosure@ == 1,
                Err(error) => version != 1 && error == RepositoryPortError::InvalidInput,
            },
    {
        if version != 1 {
            return Err(RepositoryPortError::InvalidInput);
        }
        Ok(OfflineGuessingRiskDisclosure { version: 1 })
    }

    pub fn policy_version(&self) -> (version: u16)
        ensures
            version == self@,
    {
        self.version as u16
    }

    /// Accepts the disclosed risk.
    pub fn accept(self) -> (acknowledgement: OfflineGuessingRiskAcknowledgement)
        ensures
            acknowledgement@ == self@,
    {
        OfflineGuessingRiskAcknowledgement { version: self.version }
    }
}

/// Contents of an acknowledgement that may be absent.
pub open spec fn risk_version(risk: Option<OfflineGuessingRiskAcknowledgement>) -> Option<u8> {
    match risk {
        Some(risk) => Some(risk@),
        None => None,
    }
}

/// Contents of a secret that may be absent.
pub open spec fn secret_contents(secret: Option<RecoverySecretInput>) -> Option<Seq<u8>> {
    match secret {
        Some(secret) => Some(secret@),
        None => None,
    }
}

/// A request to initialize a vault.
pub struct BeginRecoveryInitialization {
    policy: RecoverySecretPolicy,
    custom: Option<RecoverySecretInput>,
    risk: Option<OfflineGuessingRiskAcknowledgement>,
}

/// Contents of a [`BeginRecoveryInitialization`].
pub struct InitializationModel {
    pub policy: RecoverySecretPolicy,
    pub custom: Option<Seq<u8>>,
    pub risk: Option<u8>,
}

impl View for BeginRecoveryInitialization {
    type V = InitializationModel;

    closed spec fn view(&self) -> InitializationModel {
        InitializationModel {
            policy: self.policy,
            custom: secret_contents(self.custom),
            risk: risk_version(self.risk),
        }
    }
}

impl BeginRecoveryInitialization {
    pub fn generated() -> (request: Self)
        ensures
            request@ == (InitializationModel {
                policy: RecoverySecretPolicy::Generated,
                custom: None,
                risk: None,
            }),
    {
        BeginRecoveryInitialization {
            policy: RecoverySecretPolicy::Generated,
            custom: None,
            risk: None,
        }
    }

    pub fn custom_v1(
        secret: RecoverySecretInput,
        acknowledgement: OfflineGuessingRiskAcknowledgement,
    ) -> (request: Self)
        ensures
            request@ == (InitializationModel {
                policy: RecoverySecretPolicy::CustomV1,
                custom: Some(secret@),
                risk: Some(acknowledgement@),
            }),
    {
        BeginRecoveryInitialization {
            policy: RecoverySecretPolicy::CustomV1,
            custom: Some(secret),
            risk: Some(acknowledgement),
        }
    }

    pub fn policy(&self) -> (policy: RecoverySecretPolicy)
        ensures
            policy == self@.policy,
    {
        self.policy
    }

    /// The custom secret with the accepted risk, where there are both.
    pub fn into_custom(self) -> (custom: Option<
        (RecoverySecretInput, OfflineGuessingRiskAcknowledgement),
    >)
        ensures
            match custom {
                Some((secret, risk)) => self@.custom == Some(secret@) && self@.risk == Some(risk@),
                None => self@.custom is None || self@.risk is None,
            },
    {
        match (self.custom, self.risk) {
            (Some(secret), Some(risk)) => Some((secret, risk)),
            _ => None,
        }
    }
}

/// A request to rekey a vault after a compromise.
pub struct BeginCompromiseRekey {
    target: [u8; 16],
    policy: RecoverySecretPolicy,
    risk: Option<OfflineGuessingRiskAcknowledgement>,
}

/// Contents of a [`BeginCompromiseRekey`].
pub struct RekeyModel {
    pub target: [u8; 16],
    pub policy: RecoverySecretPolicy,
    pub risk: Option<u8>,
}

impl View for BeginCompromiseRekey {
    type V = RekeyModel;

    closed spec fn view(&self) -> RekeyModel {
        RekeyModel { target: self.target, policy: self.policy, risk: risk_version(self.risk) }
    }
}

/// Whether a target names something: the identity of all zeroes does not.
pub open spec fn names_target(target: [u8; 16]) -> bool {
    exists|i: int| 0 <= i < 16 && #[trigger] target@[i] != 0
}

impl BeginCompromiseRekey {
    pub fn try_generated(target: [u8; 16]) -> (request: Result<Self, RepositoryPortError>)
        ensures
            match request {
                Ok(request) => names_target(target) && request@ == (RekeyModel {
                    target,
                    policy: RecoverySecretPolicy::Generated,
                    risk: None,
                }),
                Err(error) => !names_target(target) && error == RepositoryPortError::InvalidInput,
            },
    {
        if is_all_zero(&target) {
            return Err(RepositoryPortError::InvalidInput);
        }
        Ok(
            BeginCompromiseRekey {
                target,
                policy: RecoverySecretPolicy::Generated,
                risk: None,
            },
        )
    }

    pub fn try_custom_v1(
        target: [u8; 16],
        acknowledgement: OfflineGuessingRiskAcknowledgement,
    ) -> (request: Result<Self, RepositoryPortError>)
        ensures
            match request {
                Ok(request) => names_target(target) && acknowledgement@ == 1 && request@ == (
                RekeyModel {
                    target,
                    policy: RecoverySecretPolicy::CustomV1,
                    risk: Some(acknowledgement@),
                }),
                Err(error) => !(names_target(target) && acknowledgement@ == 1) && error
                    == RepositoryPortError::InvalidInput,
            },
    {
        if is_all_zero(&target) || acknowledgement.version != 1 {
            return Err(RepositoryPortError::InvalidInput);
        }
        Ok(
            BeginCompromiseRekey {
                target,
                policy: RecoverySecretPolicy::CustomV1,
                risk: Some(acknowledgement),
            },
        )
    }

    pub fn target(&self) -> (target: &[u8; 16])
        ensures
            *target == self@.target,
    {
        &self.target
    }

    pub fn policy(&self) -> (policy: RecoverySecretPolicy)
        ensures
            policy == self@.policy,
    {
        self.policy
    }

    pub fn into_parts(self) -> (parts: (
        [u8; 16],
        RecoverySecretPolicy,
        Option<OfflineGuessingRiskAcknowledgement>,
    ))
        ensures
            parts.0 == self@.target,
            parts.1 == self@.policy,
            risk_version(parts.2) == self@.risk,
    {
        (self.target, self.policy, self.risk)
    }
}

/// Linear recovery credential confirmation for a compromise rekey.
pub struct CompromiseRekeyConfirmation {
    first: RecoverySecretInput,
    matching: Option<RecoverySecretInput>,
}

impl View for CompromiseRekeyConfirmation {
    type V = (Seq<u8>, Option<Seq<u8>>);

    closed spec fn view(&self) -> (Seq<u8>, Option<Seq<u8>>) {
        (self.first@, secret_contents(self.matching))
    }
}

impl CompromiseRekeyConfirmation {
    pub fn generated(confirmation: RecoverySecretInput) -> (whole: Self)
        ensures
            whole@ == (confirmation@, None::<Seq<u8>>),
    {
        CompromiseRekeyConfirmation { first: confirmation, matching: None }
    }

    pub fn custom_v1(first: RecoverySecretInput, matching: RecoverySecretInput) -> (whole: Self)
        ensures
            whole@ == (first@, Some(matching@)),
    {
        CompromiseRekeyConfirmation { first, matching: Some(matching) }
    }

    pub fn into_parts(self) -> (parts: (RecoverySecretInput, Option<RecoverySecretInput>))
        ensures
            (parts.0@, secret_contents(parts.1)) == self@,
    {
        (self.first, self.matching)
    }
}

/// What is known of a vault that was initialized.
#[derive(Clone, Copy, Debug, PartialEq, Eq)]
pub struct VaultSummary {
    vault_id: VaultId,
}

impl View for VaultSummary {
    type V = VaultId;

    closed spec fn view(&self) -> VaultId {
        self.vault_id
    }
}

impl VaultSummary {
    pub fn new(vault_id: VaultId) -> (summary: Self)
        ensures
            summary@ == vault_id,
    {
        VaultSummary { vault_id }
    }

    pub fn vault_id(&self) -> (vault_id: VaultId)
        ensures
            vault_id == self@,
    {
        self.vault_id
    }
}

/// What a user is told before freshness is acknowledged.
#[derive(Clone, Copy, Debug, PartialEq, Eq)]
pub struct FreshnessAcknowledgementView {
    authenticated_snapshot: [u8; 32],
}

impl View for FreshnessAcknowledgementView {
    type V = [u8; 32];

    closed spec fn view(&self) -> [u8; 32] {
        self.authenticated_snapshot
    }
}

impl FreshnessAcknowledgementView {
    pub fn new(authenticated_snapshot: [u8; 32]) -> (view: Self)
        ensures
            view@ == authenticated_snapshot,
    {
        FreshnessAcknowledgementView { authenticated_snapshot }
    }

    pub fn warning_code(&self) -> (code: &'static str)
        ensures
            code@ == "freshness-unprovable"@,
    {
        "freshness-unprovable"
    }

    pub fn authenticated_snapshot(&self) -> (snapshot: &[u8; 32])
        ensures
            *snapshot == self@,
    {
        &self.authenticated_snapshot
    }

    pub fn consequence(&self) -> (consequence: &'static str)
        ensures
            consequence@
                == "records this authenticated remote as trusted without proving freshness"@,
    {
        "records this authenticated remote as trusted without proving freshness"
    }
}

/// Read-only cancellation probe for repository calls owned by the service.
pub struct RepositoryCancellation {
    cancelled: bool,
}

impl View for RepositoryCancellation {
    type V = bool;

    closed spec fn view(&self) -> bool {
        self.cancelled
    }
}

impl RepositoryCancellation {
    pub fn new() -> (probe: Self)
        ensures
            !probe@,
    {
        RepositoryCancellation { cancelled: false }
    }

    pub fn is_cancelled(&self) -> (cancelled: bool)
        ensures
            cancelled == self@,
    {
        self.cancelled
    }

    pub fn cancel(&mut self)
        ensures
            final(self)@,
    {
        self.cancelled = true;
    }
}

/// Service-owned Argon2id profile without exposing the crypto crate.
#[derive(Clone, Copy, Debug, PartialEq, Eq, Structural)]
pub struct RecoveryKdfProfileV1 {
    memory_kib: u32,
    iterations: u32,
    parallelism: u32,
}

impl View for RecoveryKdfProfileV1 {
    type V = (u32, u32, u32);

    closed spec fn view(&self) -> (u32, u32, u32) {
        (self.memory_kib, self.iterations, self.parallelism)
    }
}

impl RecoveryKdfProfileV1 {
    /// Keeps a profile. `accepted` is what the key derivation says of it.
    pub fn try_new(memory_kib: u32, iterations: u32, parallelism: u32, accepted: bool) -> (profile:
        Result<Self, RepositoryPortError>)
        ensures
            match profile {
                Ok(profile) => accepted && profile@ == (memory_kib, iterations, parallelism),
                Err(error) => !accepted && error == RepositoryPortError::InvalidInput,
            },
    {
        if !accepted {
            return Err(RepositoryPortError::InvalidInput);
        }
        Ok(RecoveryKdfProfileV1 { memory_kib, iterations, parallelism })
    }

    pub fn memory_kib(&self) -> (memory_kib: u32)
        ensures
            memory_kib == self@.0,
    {
        self.memory_kib
    }

    pub fn iterations(&self) -> (iterations: u32)
        ensures
            iterations == self@.1,
    {
        self.iterations
    }

    pub fn parallelism(&self) -> (parallelism: u32)
        ensures
            parallelism == self@.2,
    {
        self.parallelism
    }
}

/// Validated owned target selected by a trusted composition adapter.
pub struct LocalVaultConfig {
    repository_root: NativePath,
    local_state_root: NativePath,
    profile: RecoveryKdfProfileV1,
    device_label: String,
}

/// Contents of a [`LocalVaultConfig`].
pub struct VaultConfigModel {
    pub repository_root: PathModel,
    pub local_state_root: PathModel,
    pub profile: RecoveryKdfProfileV1,
    pub device_label: Seq<char>,
}

impl View for LocalVaultConfig {
    type V = VaultConfigModel;

    closed spec fn view(&self) -> VaultConfigModel {
        VaultConfigModel {
            repository_root: self.repository_root@,
            local_state_root: self.local_state_root@,
            profile: self.profile,
            device_label: self.device_label@,
        }
    }
}

/// Whether a target can be used: two plain roots that differ, and a bounded
/// label without a zero byte.
pub open spec fn config_is_valid(config: VaultConfigModel) -> bool {
    &&& paths::is_valid_absolute(config.repository_root)
    &&& paths::is_valid_absolute(config.local_state_root)
    &&& !paths::same_path(config.repository_root, config.local_state_root)
    &&& rehome::is_bounded_text(config.device_label, MAX_DEVICE_LABEL_BYTES as nat)
    &&& rehome::has_no_zero(vstd::utf8::encode_utf8(config.device_label))
}

/// Whether the allocator may have refused room for a target: for one of its roots
/// or for its label.
pub open spec fn config_refused(config: VaultConfigModel) -> bool {
    ||| paths::path_refused(config.repository_root)
    ||| paths::path_refused(config.local_state_root)
    ||| memory::string_refused(vstd::utf8::encode_utf8(config.device_label).len() as int)
}

impl LocalVaultConfig {
    pub fn try_new(
        repository_root: NativePath,
        local_state_root: NativePath,
        profile: RecoveryKdfProfileV1,
        device_label: String,
    ) -> (config: Result<Self, RepositoryPortError>)
        ensures
            ({
                let wanted = VaultConfigModel {
                    repository_root: repository_root@,
                    local_state_root: local_state_root@,
                    profile,
                    device_label: device_label@,
                };
                match config {
                    Ok(config) => config_is_valid(wanted) && config@ == wanted,
                    Err(error) => if config_is_valid(wanted) {
                        error == RepositoryPortError::AllocationFailed && config_refused(wanted)
                    } else {
                        error == RepositoryPortError::InvalidInput
                    },
                }
            }),
    {
        if !repository_root.is_valid_absolute_path() || !local_state_root.is_valid_absolute_path()
            || repository_root.is_same_path(&local_state_root) {
            return Err(RepositoryPortError::InvalidInput);
        }
        let label = device_label.as_str().as_bytes();
        if label.len() == 0 || label.len() > MAX_DEVICE_LABEL_BYTES || !is_zero_free(label) {
            return Err(RepositoryPortError::InvalidInput);
        }
        Self::of_kept(
            repository_root.try_rehome(MAX_NATIVE_PATH_BYTES),
            local_state_root.try_rehome(MAX_NATIVE_PATH_BYTES),
            profile,
            try_rehome_string(device_label, MAX_DEVICE_LABEL_BYTES),
        )
    }

    /// The target of parts that were moved into room of their size. The first part
    /// that was not decides.
    pub fn of_kept(
        repository_root: Result<NativePath, HostPortError>,
        local_state_root: Result<NativePath, HostPortError>,
        profile: RecoveryKdfProfileV1,
        device_label: Result<String, HostPortError>,
    ) -> (config: Result<Self, RepositoryPortError>)
        ensures
            match (repository_root, local_state_root, device_label) {
                (Err(error), _, _) => config == Err::<Self, RepositoryPortError>(
                    errors::host_repository_failure(error),
                ),
                (Ok(_), Err(error), _) => config == Err::<Self, RepositoryPortError>(
                    errors::host_repository_failure(error),
                ),
                (Ok(_), Ok(_), Err(error)) => config == Err::<Self, RepositoryPortError>(
                    errors::host_repository_failure(error),
                ),
                (Ok(root), Ok(state), Ok(label)) => config is Ok && config->Ok_0@ == (
                VaultConfigModel {
                    repository_root: root@,
                    local_state_root: state@,
                    profile,
                    device_label: label@,
                }),
            },
    {
        let repository_root = match repository_root {
            Ok(path) => path,
            Err(error) => return Err(map_host_repository_error(error)),
        };
        let local_state_root = match local_state_root {
            Ok(path) => path,
            Err(error) => return Err(map_host_repository_error(error)),
        };
        let device_label = match device_label {
            Ok(label) => label,
            Err(error) => return Err(map_host_repository_error(error)),
        };
        Ok(LocalVaultConfig { repository_root, local_state_root, profile, device_label })
    }

    pub fn repository_root(&self) -> (root: &NativePath)
        ensures
            root@ == self@.repository_root,
    {
        &self.repository_root
    }

    pub fn local_state_root(&self) -> (root: &NativePath)
        ensures
            root@ == self@.local_state_root,
    {
        &self.local_state_root
    }

    pub fn profile(&self) -> (profile: RecoveryKdfProfileV1)
        ensures
            profile == self@.profile,
    {
        self.profile
    }

    pub fn device_label(&self) -> (label: &str)
        ensures
            label@ == self@.device_label,
    {
        self.device_label.as_str()
    }

    /// Memory retained for the device label.
    pub fn retained_label_capacity(&self) -> (capacity: usize)
        ensures
            capacity >= self@.device_label.len(),
    {
        text_capacity(&self.device_label)
    }
}

/// What is known of the repository of a service: nothing yet, or a vault.
#[derive(Clone, Copy, Debug)]
pub struct StoreVaultRepository {
    vault: Option<VaultId>,
}

impl View for StoreVaultRepository {
    type V = Option<VaultId>;

    closed spec fn view(&self) -> Option<VaultId> {
        self.vault
    }
}

/// Whether a request to initialize carries what its policy asks for.
pub open spec fn initialization_is_complete(request: InitializationModel) -> bool {
    match request.policy {
        RecoverySecretPolicy::Generated => true,
        RecoverySecretPolicy::CustomV1 => request.custom is Some && request.risk == Some(1u8),
    }
}

impl StoreVaultRepository {
    /// A repository that holds a vault.
    pub fn open(vault_id: VaultId) -> (repository: Self)
        ensures
            repository@ == Some(vault_id),
    {
        StoreVaultRepository { vault: Some(vault_id) }
    }

    /// A repository that is still to be initialized.
    pub fn vacant() -> (repository: Self)
        ensures
            repository@ is None,
    {
        StoreVaultRepository { vault: None }
    }

    pub fn current_vault_id(&self) -> (vault_id: Option<VaultId>)
        ensures
            vault_id == self@,
    {
        self.vault
    }

    /// Whether there is a vault that can be unlocked.
    pub fn check_unlock(&self) -> (checked: Result<(), RepositoryPortError>)
        ensures
            checked == if self@ is Some {
                Ok(())
            } else {
                Err(RepositoryPortError::NotFound)
            },
    {
        match self.vault {
            Some(_) => Ok(()),
            None => Err(RepositoryPortError::NotFound),
        }
    }

    /// Looks whether an initialization can begin. The answer is the custom
    /// secret, or none where one is to be generated.
    pub fn begin_recovery_initialization(
        &self,
        request: BeginRecoveryInitialization,
        cancelled: bool,
    ) -> (custom: Result<Option<RecoverySecretInput>, RepositoryPortError>)
        ensures
            match custom {
                Ok(custom) => {
                    &&& !cancelled
                    &&& self@ is None
                    &&& initialization_is_complete(request@)
                    &&& match request@.policy {
                        RecoverySecretPolicy::Generated => custom is None,
                        RecoverySecretPolicy::CustomV1 => custom is Some && Some(custom->0@)
                            == request@.custom,
                    }
                },
                Err(error) => if cancelled {
                    error == RepositoryPortError::Cancelled
                } else {
                    (self@ is Some || !initialization_is_complete(request@)) && error
                        == RepositoryPortError::InvalidInput
                },
            },
    {
        if cancelled {
            return Err(RepositoryPortError::Cancelled);
        }
        if self.vault.is_some() {
            return Err(RepositoryPortError::InvalidInput);
        }
        match request.policy() {
            RecoverySecretPolicy::Generated => Ok(None),
            RecoverySecretPolicy::CustomV1 => match request.into_custom() {
                Some((secret, risk)) => if risk.version() != 1 {
                    Err(RepositoryPortError::InvalidInput)
                } else {
                    Ok(Some(secret))
                },
                None => Err(RepositoryPortError::InvalidInput),
            },
        }
    }

    /// Takes over a vault that was initialized. A repository that has one by then
    /// is left as it is, and what was made needs cleanup.
    pub fn initialized(&mut self, vault_id: VaultId) -> (summary: Result<
        VaultSummary,
        RepositoryPortError,
    >)
        ensures
            old(self)@ is None ==> summary is Ok && summary->Ok_0@ == vault_id && final(self)@
                == Some(vault_id),
            old(self)@ is Some ==> summary == Err::<VaultSummary, RepositoryPortError>(
                RepositoryPortError::CleanupRequired,
            ) && final(self)@ == old(self)@,
    {
        if self.vault.is_some() {
            return Err(RepositoryPortError::CleanupRequired);
        }
        self.vault = Some(vault_id);
        Ok(VaultSummary::new(vault_id))
    }
}

/// Where a compromise rekey stands.
#[derive(Clone, Copy, Debug, PartialEq, Eq, Structural)]
pub enum RekeyStage {
    /// It opens its target.
    Opening,
    /// It asks the source for an entry.
    Listing,
    /// It stages an entry.
    Staging,
    /// It verifies that everything was staged.
    Verifying,
    /// It gives the target up.
    Aborting(RepositoryPortError),
    /// It makes the target current.
    Activating,
    /// It is over.
    Over,
}

/// What a compromise rekey needs from the store next.
#[derive(Clone, Copy, Debug, PartialEq, Eq)]
pub enum RekeyAction {
    OpenTarget,
    NextEntry,
    StageEntry,
    Verify,
    Abort,
    Activate,
    End(Result<(), RepositoryPortError>),
}

/// One more look at the entries, or the end of a rekey that was cancelled.
pub open spec fn rekey_listing(cancelled: bool) -> (RekeyStage, RekeyAction) {
    if cancelled {
        (RekeyStage::Aborting(RepositoryPortError::Cancelled), RekeyAction::Abort)
    } else {
        (RekeyStage::Listing, RekeyAction::NextEntry)
    }
}

/// Where one answer of the store leads a rekey. What a look at the entries
/// answers is whether there is one more.
pub open spec fn rekey_move(
    stage: RekeyStage,
    cancelled: bool,
    answer: Result<bool, StoreFailure>,
) -> (RekeyStage, RekeyAction) {
    match (stage, answer) {
        (RekeyStage::Opening, Ok(_)) => rekey_listing(cancelled),
        (RekeyStage::Opening, Err(error)) => (
            RekeyStage::Over,
            RekeyAction::End(Err(errors::store_failure(error))),
        ),
        (RekeyStage::Listing, Ok(true)) => (RekeyStage::Staging, RekeyAction::StageEntry),
        (RekeyStage::Listing, Ok(false)) => (RekeyStage::Verifying, RekeyAction::Verify),
        (RekeyStage::Staging, Ok(_)) => rekey_listing(cancelled),
        (RekeyStage::Verifying, Ok(_)) => if cancelled {
            (RekeyStage::Aborting(RepositoryPortError::Cancelled), RekeyAction::Abort)
        } else {
            (RekeyStage::Activating, RekeyAction::Activate)
        },
        (RekeyStage::Listing, Err(error)) | (RekeyStage::Staging, Err(error)) | (
            RekeyStage::Verifying,
            Err(error),
        ) => (RekeyStage::Aborting(errors::store_failure(error)), RekeyAction::Abort),
        (RekeyStage::Aborting(primary), Ok(_)) => (
            RekeyStage::Over,
            RekeyAction::End(Err(primary)),
        ),
        (RekeyStage::Aborting(_), Err(_)) => (
            RekeyStage::Over,
            RekeyAction::End(Err(RepositoryPortError::CleanupRequired)),
        ),
        (RekeyStage::Activating, Ok(_)) => (RekeyStage::Over, RekeyAction::End(Ok(()))),
        (RekeyStage::Activating, Err(error)) => (
            RekeyStage::Over,
            RekeyAction::End(Err(errors::store_failure(error))),
        ),
        (RekeyStage::Over, _) => (
            RekeyStage::Over,
            RekeyAction::End(Err(RepositoryPortError::Locked)),
        ),
    }
}

/// Looks whether a confirmed rekey can begin.
pub fn begin_rekey(cancelled: bool, has_source: bool) -> (begun: Result<
    RekeyStage,
    RepositoryPortError,
>)
    ensures
        begun == if cancelled {
            Err(RepositoryPortError::Cancelled)
        } else if !has_source {
            Err(RepositoryPortError::Locked)
        } else {
            Ok(RekeyStage::Opening)
        },
{
    if cancelled {
        Err(RepositoryPortError::Cancelled)
    } else if !has_source {
        Err(RepositoryPortError::Locked)
    } else {
        Ok(RekeyStage::Opening)
    }
}

/// Takes a rekey one step further with an answer of the store.
pub fn advance_rekey(stage: RekeyStage, cancelled: bool, answer: Result<bool, StoreFailure>) -> (next:
    (RekeyStage, RekeyAction))
    ensures
        next == rekey_move(stage, cancelled, answer),
{
    match (stage, answer) {
        (RekeyStage::Opening, Ok(_)) | (RekeyStage::Staging, Ok(_)) => if cancelled {
            (RekeyStage::Aborting(RepositoryPortError::Cancelled), RekeyAction::Abort)
        } else {
            (RekeyStage::Listing, RekeyAction::NextEntry)
        },
        (RekeyStage::Opening, Err(error)) | (RekeyStage::Activating, Err(error)) => (
            RekeyStage::Over,
            RekeyAction::End(Err(map_store_error(error))),
        ),
        (RekeyStage::Listing, Ok(true)) => (RekeyStage::Staging, RekeyAction::StageEntry),
        (RekeyStage::Listing, Ok(false)) => (RekeyStage::Verifying, RekeyAction::Verify),
        (RekeyStage::Verifying, Ok(_)) => if cancelled {
            (RekeyStage::Aborting(RepositoryPortError::Cancelled), RekeyAction::Abort)
        } else {
            (RekeyStage::Activating, RekeyAction::Activate)
        },
        (RekeyStage::Listing, Err(error)) | (RekeyStage::Staging, Err(error)) | (
            RekeyStage::Verifying,
            Err(error),
        ) => (RekeyStage::Aborting(map_store_error(error)), RekeyAction::Abort),
        (RekeyStage::Aborting(primary), Ok(_)) => (
            RekeyStage::Over,
            RekeyAction::End(Err(primary)),
        ),
        (RekeyStage::Aborting(_), Err(_)) => (
            RekeyStage::Over,
            RekeyAction::End(Err(RepositoryPortError::CleanupRequired)),
        ),
        (RekeyStage::Activating, Ok(_)) => (RekeyStage::Over, RekeyAction::End(Ok(()))),
        (RekeyStage::Over, _) => (
            RekeyStage::Over,
            RekeyAction::End(Err(RepositoryPortError::Locked)),
        ),
    }
}

/// Why the absence of a workspace could not be verified.
pub open spec fn absence_failure(error: HostPortError) -> StoreFailure {
    match error {
        HostPortError::LiveWorkspace => StoreFailure::Busy,
        HostPortError::CapacityExceeded => StoreFailure::LimitExceeded,
        HostPortError::AllocationFailed => StoreFailure::AllocationFailed,
        _ => StoreFailure::InvalidCapability,
    }
}

/// Why the absence of a workspace could not be verified.
pub fn map_absence_error(error: HostPortError) -> (mapped: StoreFailure)
    ensures
        mapped == absence_failure(error),
{
    match error {
        HostPortError::LiveWorkspace => StoreFailure::Busy,
        HostPortError::CapacityExceeded => StoreFailure::LimitExceeded,
        HostPortError::AllocationFailed => StoreFailure::AllocationFailed,
        _ => StoreFailure::InvalidCapability,
    }
}

/// Proofs of absence that wait for the store, one for a workspace. A proof is
/// named by a token of the caller.
pub struct AbsenceProofs {
    held: Vec<([u8; 16], u64)>,
}

impl View for AbsenceProofs {
    type V = Seq<([u8; 16], u64)>;

    closed spec fn view(&self) -> Seq<([u8; 16], u64)> {
        self.held@
    }
}

/// Whether a proof for a workspace stands at a place.
pub open spec fn proof_at(held: Seq<([u8; 16], u64)>, id: [u8; 16], index: int) -> bool {
    0 <= index < held.len() && held[index].0 == id
}

/// Whether a proof for a workspace waits.
pub open spec fn holds_proof(held: Seq<([u8; 16], u64)>, id: [u8; 16]) -> bool {
    exists|index: int| proof_at(held, id, index)
}

/// Invariant of the proofs: bounded, and one for a workspace.
pub open spec fn proofs_wf(held: Seq<([u8; 16], u64)>) -> bool {
    &&& held.len() <= MAX_ACTIVE_WORKSPACES
    &&& forall|i: int, j: int|
        0 <= i < j < held.len() ==> (#[trigger] held[i]).0 != (#[trigger] held[j]).0
}

/// What the proof for a workspace meets, where room for it was granted or not.
pub open spec fn stage_answer(held: Seq<([u8; 16], u64)>, id: [u8; 16], granted: bool) -> Result<
    (),
    RepositoryPortError,
> {
    if held.len() == MAX_ACTIVE_WORKSPACES {
        Err(RepositoryPortError::CapacityExceeded)
    } else if holds_proof(held, id) {
        Err(RepositoryPortError::Busy)
    } else if !granted {
        Err(RepositoryPortError::AllocationFailed)
    } else {
        Ok(())
    }
}

impl AbsenceProofs {
    pub fn new() -> (proofs: Self)
        ensures
            proofs@ == Seq::<([u8; 16], u64)>::empty(),
            proofs_wf(proofs@),
    {
        let proofs = AbsenceProofs { held: Vec::new() };
        assert(proofs@ =~= Seq::<([u8; 16], u64)>::empty());
        proofs
    }

    fn place(&self, id: &[u8; 16]) -> (place: Option<usize>)
        ensures
            match place {
                Some(index) => proof_at(self@, *id, index as int),
                None => !holds_proof(self@, *id),
            },
    {
        let mut index: usize = 0;
        while index < self.held.len()
            invariant
                index <= self.held@.len(),
                forall|i: int| 0 <= i < index ==> !proof_at(self@, *id, i),
            decreases self.held@.len() - index,
        {
            if same_bytes(&self.held[index].0, id) {
                assert(proof_at(self@, *id, index as int));
                return Some(index);
            }
            index += 1;
        }
        None
    }

    /// Keeps the proof for a workspace.
    pub fn stage(&mut self, id: &WorkspaceId, guard: u64) -> (staged: Result<
        (),
        RepositoryPortError,
    >)
        ensures
            proofs_wf(old(self)@) ==> proofs_wf(final(self)@),
            match staged {
                Ok(()) => stage_answer(old(self)@, id@, true) is Ok && final(self)@
                    == old(self)@.push((id@, guard)),
                Err(error) => final(self)@ == old(self)@ && staged == stage_answer(
                    old(self)@,
                    id@,
                    false,
                ) && (error == RepositoryPortError::AllocationFailed ==> memory::vec_refused(
                    old(self)@,
                    1,
                )),
            },
    {
        let granted = self.held.len() != MAX_ACTIVE_WORKSPACES && reserve_vec(&mut self.held, 1);
        self.stage_over(id, guard, granted)
    }

    /// Keeps the proof for a workspace, where room for it was granted.
    pub fn stage_over(&mut self, id: &WorkspaceId, guard: u64, granted: bool) -> (staged: Result<
        (),
        RepositoryPortError,
    >)
        ensures
            proofs_wf(old(self)@) ==> proofs_wf(final(self)@),
            staged == stage_answer(old(self)@, id@, granted),
            final(self)@ == if staged is Ok {
                old(self)@.push((id@, guard))
            } else {
                old(self)@
            },
    {
        if self.held.len() == MAX_ACTIVE_WORKSPACES {
            return Err(RepositoryPortError::CapacityExceeded);
        }
        let bytes = id.as_bytes();
        if self.place(&bytes).is_some() {
            return Err(RepositoryPortError::Busy);
        }
        if !granted {
            return Err(RepositoryPortError::AllocationFailed);
        }
        let ghost before = self@;
        self.held.push((bytes, guard));
        proof {
            if proofs_wf(before) {
                assert forall|i: int, j: int| 0 <= i < j < self@.len() implies (
                #[trigger] self@[i]).0 != (#[trigger] self@[j]).0 by {
                    if j == before.len() && self@[i].0 == bytes {
                        assert(proof_at(before, bytes, i));
                    }
                }
            }
        }
        Ok(())
    }

    /// Takes the proof for a workspace, where it waits.
    pub fn take(&mut self, id: &WorkspaceId) -> (guard: Option<u64>)
        ensures
            proofs_wf(old(self)@) ==> proofs_wf(final(self)@) && !holds_proof(final(self)@, id@),
            match guard {
                Some(guard) => exists|index: int|
                    #![trigger proof_at(old(self)@, id@, index)]
                    proof_at(old(self)@, id@, index) && old(self)@[index].1 == guard
                        && final(self)@ == old(self)@.remove(index),
                None => !holds_proof(old(self)@, id@) && final(self)@ == old(self)@,
            },
    {
        let bytes = id.as_bytes();
        let ghost before = self@;
        match self.place(&bytes) {
            Some(index) => {
                let (_, guard) = self.held.remove(index);
                assert(proof_at(before, id@, index as int));
                proof {
                    if proofs_wf(before) {
                        assert forall|i: int| !proof_at(self@, id@, i) by {
                            if proof_at(self@, id@, i) {
                                let original = if i < index {
                                    i
                                } else {
                                    i + 1
                                };
                                assert(self@[i] == before[original]);
                                assert(before[original].0 == before[index as int].0);
                            }
                        }
                    }
                }
                Some(guard)
            },
            None => None,
        }
    }
}

} // verus!
