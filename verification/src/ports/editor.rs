//! Editor commands and the supervision of editor processes.
use vstd::prelude::*;

use crate::memory;
use crate::memory::vec_room;
use crate::ports::paths;
use crate::ports::paths::{NativePath, PathModel};
use crate::ports::rehome;
use crate::ports::rehome::{is_zero_free, try_copy_encoded, try_rehome_encoded};
use crate::ports::workspace::{LeaseModel, WorkspaceId, WorkspaceLease, WorkspaceMode};
use crate::ports::{
    HostPortError, MAX_EDITOR_ARGUMENTS, MAX_EDITOR_ARGUMENT_BYTES, MAX_EDITOR_COMMAND_BYTES,
    MAX_NATIVE_PATH_BYTES,
};

verus! {

/// Whether completion alone is sufficient or the editor tree must be owned.
#[derive(Clone, Copy, Debug, PartialEq, Eq, Structural)]
pub enum EditorSupervisionMode {
    Blocking,
    Strict,
}

/// The bytes of a list of arguments.
pub open spec fn argument_bytes(arguments: Seq<Vec<u8>>) -> Seq<Seq<u8>> {
    arguments.map_values(|argument: Vec<u8>| argument@)
}

/// Why one argument is refused.
pub open spec fn argument_failure(argument: Seq<u8>) -> Option<HostPortError> {
    if !rehome::has_no_zero(argument) {
        Some(HostPortError::InvalidInput)
    } else if argument.len() > MAX_EDITOR_ARGUMENT_BYTES {
        Some(HostPortError::CapacityExceeded)
    } else {
        None
    }
}

/// Why one of the first `count` arguments is refused: the first that is.
pub open spec fn first_argument_failure(arguments: Seq<Seq<u8>>, count: nat) -> Option<
    HostPortError,
>
    decreases count,
{
    if count == 0 {
        None
    } else {
        match first_argument_failure(arguments, (count - 1) as nat) {
            Some(failure) => Some(failure),
            None => argument_failure(arguments[count - 1]),
        }
    }
}

/// Bytes of the first `count` arguments on a command line, each with its end.
pub open spec fn arguments_length(arguments: Seq<Seq<u8>>, count: nat) -> nat
    decreases count,
{
    if count == 0 {
        0
    } else {
        arguments_length(arguments, (count - 1) as nat) + arguments[count - 1].len() + 1
    }
}

/// Why a command line is refused, with room for what is still to be appended.
pub open spec fn command_failure(
    executable: Seq<u8>,
    arguments: Seq<Seq<u8>>,
    extra_bytes: nat,
    extra_arguments: nat,
) -> Option<HostPortError> {
    if executable.len() == 0 || !rehome::has_no_zero(executable) {
        Some(HostPortError::InvalidInput)
    } else if executable.len() > MAX_EDITOR_ARGUMENT_BYTES || arguments.len() + extra_arguments
        > MAX_EDITOR_ARGUMENTS {
        Some(HostPortError::CapacityExceeded)
    } else if first_argument_failure(arguments, arguments.len()) is Some {
        first_argument_failure(arguments, arguments.len())
    } else if executable.len() + extra_bytes + arguments_length(arguments, arguments.len())
        > MAX_EDITOR_COMMAND_BYTES {
        Some(HostPortError::CapacityExceeded)
    } else {
        None
    }
}

#[verifier::loop_isolation(false)]
fn validate_editor_parts(
    executable: &Vec<u8>,
    arguments: &Vec<Vec<u8>>,
    extra_bytes: usize,
    extra_arguments: usize,
) -> (validated: Result<(), HostPortError>)
    requires
        extra_bytes <= MAX_EDITOR_ARGUMENT_BYTES + 1,
        extra_arguments <= 1,
    ensures
        validated == match command_failure(
            executable@,
            argument_bytes(arguments@),
            extra_bytes as nat,
            extra_arguments as nat,
        ) {
            Some(failure) => Err(failure),
            None => Ok(()),
        },
{
    if executable.len() == 0 || !is_zero_free(executable.as_slice()) {
        return Err(HostPortError::InvalidInput);
    }
    if executable.len() > MAX_EDITOR_ARGUMENT_BYTES || arguments.len() > MAX_EDITOR_ARGUMENTS
        || arguments.len() + extra_arguments > MAX_EDITOR_ARGUMENTS {
        return Err(HostPortError::CapacityExceeded);
    }
    let ghost models = argument_bytes(arguments@);
    let mut aggregate: usize = executable.len() + extra_bytes;
    let mut index: usize = 0;
    while index < arguments.len()
        invariant
            index <= arguments@.len() <= MAX_EDITOR_ARGUMENTS,
            models == argument_bytes(arguments@),
            executable@.len() + extra_bytes <= 2 * MAX_EDITOR_ARGUMENT_BYTES + 1,
            aggregate == executable@.len() + extra_bytes + arguments_length(models, index as nat),
            arguments_length(models, index as nat) <= index * (MAX_EDITOR_ARGUMENT_BYTES + 1),
            first_argument_failure(models, index as nat) is None,
        decreases arguments@.len() - index,
    {
        let argument = &arguments[index];
        assert(models[index as int] == argument@);
        assert((index + 1) * (MAX_EDITOR_ARGUMENT_BYTES + 1) == index * (MAX_EDITOR_ARGUMENT_BYTES
            + 1) + MAX_EDITOR_ARGUMENT_BYTES + 1) by (nonlinear_arith);
        assert(index * (MAX_EDITOR_ARGUMENT_BYTES + 1) <= MAX_EDITOR_ARGUMENTS * (
        MAX_EDITOR_ARGUMENT_BYTES + 1)) by (nonlinear_arith)
            requires
                index <= MAX_EDITOR_ARGUMENTS,
        ;
        if !is_zero_free(argument.as_slice()) {
            proof {
                lemma_failure_stays(models, (index + 1) as nat, models.len());
            }
            return Err(HostPortError::InvalidInput);
        }
        if argument.len() > MAX_EDITOR_ARGUMENT_BYTES {
            proof {
                lemma_failure_stays(models, (index + 1) as nat, models.len());
            }
            return Err(HostPortError::CapacityExceeded);
        }
        aggregate = aggregate + argument.len() + 1;
        index += 1;
    }
    if aggregate > MAX_EDITOR_COMMAND_BYTES {
        return Err(HostPortError::CapacityExceeded);
    }
    Ok(())
}

/// The first failure of a list is the first failure of every longer one.
proof fn lemma_failure_stays(arguments: Seq<Seq<u8>>, count: nat, longer: nat)
    requires
        count <= longer,
        first_argument_failure(arguments, count) is Some,
    ensures
        first_argument_failure(arguments, longer) == first_argument_failure(arguments, count),
    decreases longer,
{
    if count < longer {
        lemma_failure_stays(arguments, count, (longer - 1) as nat);
    }
}

/// Bounded, already-tokenized editor command owned by the service contract.
pub struct EditorCommand {
    executable: Vec<u8>,
    arguments: Vec<Vec<u8>>,
}

/// Contents of an [`EditorCommand`].
pub struct CommandModel {
    pub executable: Seq<u8>,
    pub arguments: Seq<Seq<u8>>,
}

impl View for EditorCommand {
    type V = CommandModel;

    closed spec fn view(&self) -> CommandModel {
        CommandModel {
            executable: self.executable@,
            arguments: argument_bytes(self.arguments@),
        }
    }
}

/// Whether the allocator may have refused room for a command: for its executable
/// or for its arguments.
pub open spec fn command_refused(executable: Seq<u8>, arguments: Seq<Seq<u8>>) -> bool {
    memory::bytes_refused(executable.len() as int) || arguments_refused(arguments)
}

/// Whether the allocator may have refused room for arguments: for the list of them
/// or for one of them.
pub open spec fn arguments_refused(arguments: Seq<Seq<u8>>) -> bool {
    ||| memory::vec_refused(Seq::<Vec<u8>>::empty(), arguments.len() as int)
    ||| exists|i: int|
        0 <= i < arguments.len() && memory::bytes_refused((#[trigger] arguments[i]).len() as int)
}

impl EditorCommand {
    /// Keeps a command of platform-encoded strings.
    #[verifier::loop_isolation(false)]
    pub fn try_new(executable: Vec<u8>, arguments: Vec<Vec<u8>>) -> (command: Result<
        Self,
        HostPortError,
    >)
        ensures
            match command_failure(executable@, argument_bytes(arguments@), 0, 0) {
                Some(failure) => command == Err::<Self, HostPortError>(failure),
                None => match command {
                    Ok(command) => command@ == (CommandModel {
                        executable: executable@,
                        arguments: argument_bytes(arguments@),
                    }),
                    Err(error) => error == HostPortError::AllocationFailed && command_refused(
                        executable@,
                        argument_bytes(arguments@),
                    ),
                },
            },
    {
        if let Err(error) = validate_editor_parts(&executable, &arguments, 0, 0) {
            return Err(error);
        }
        proof {
            let models = argument_bytes(arguments@);
            assert forall|i: int| 0 <= i < arguments@.len() implies (
            #[trigger] arguments@[i])@.len() <= MAX_EDITOR_ARGUMENT_BYTES by {
                lemma_each_accepted(models, models.len(), i);
                assert(models[i] == arguments@[i]@);
            }
        }
        let arguments = copied_arguments(&arguments);
        Self::of_kept(try_rehome_encoded(executable, MAX_EDITOR_ARGUMENT_BYTES), arguments)
    }

    /// The command of parts that were moved into room of their size. The first
    /// part that was not decides.
    pub fn of_kept(
        executable: Result<Vec<u8>, HostPortError>,
        arguments: Result<Vec<Vec<u8>>, HostPortError>,
    ) -> (command: Result<Self, HostPortError>)
        ensures
            match (executable, arguments) {
                (Err(error), _) => command == Err::<Self, HostPortError>(error),
                (Ok(_), Err(error)) => command == Err::<Self, HostPortError>(error),
                (Ok(executable), Ok(arguments)) => command is Ok && command->Ok_0@ == (
                CommandModel {
                    executable: executable@,
                    arguments: argument_bytes(arguments@),
                }),
            },
    {
        match (executable, arguments) {
            (Ok(executable), Ok(arguments)) => Ok(EditorCommand { executable, arguments }),
            (Err(error), _) => Err(error),
            (Ok(_), Err(error)) => Err(error),
        }
    }

    pub fn executable(&self) -> (executable: &[u8])
        ensures
            executable@ == self@.executable,
    {
        self.executable.as_slice()
    }

    pub fn arguments(&self) -> (arguments: &[Vec<u8>])
        ensures
            argument_bytes(arguments@) == self@.arguments,
    {
        self.arguments.as_slice()
    }

    pub fn into_parts(self) -> (parts: (Vec<u8>, Vec<Vec<u8>>))
        ensures
            parts.0@ == self@.executable,
            argument_bytes(parts.1@) == self@.arguments,
    {
        (self.executable, self.arguments)
    }

    /// Checks that the path of the edited file can still be appended.
    pub fn validate_workspace_argument(&self, workspace_file: &NativePath) -> (validated: Result<
        (),
        HostPortError,
    >)
        ensures
            validated == if workspace_file@.encoded.len() > MAX_EDITOR_ARGUMENT_BYTES {
                Err(HostPortError::CapacityExceeded)
            } else {
                match command_failure(
                    self@.executable,
                    self@.arguments,
                    workspace_file@.encoded.len() + 1,
                    1,
                ) {
                    Some(failure) => Err(failure),
                    None => Ok(()),
                }
            },
    {
        let length: usize = workspace_file.encoded_len();
        if length > MAX_EDITOR_ARGUMENT_BYTES {
            return Err(HostPortError::CapacityExceeded);
        }
        validate_editor_parts(&self.executable, &self.arguments, length + 1, 1)
    }
}

/// Copies the arguments of a command, each into room of its size.
fn copied_arguments(arguments: &Vec<Vec<u8>>) -> (kept: Result<Vec<Vec<u8>>, HostPortError>)
    requires
        forall|i: int|
            0 <= i < arguments@.len() ==> (#[trigger] arguments@[i])@.len()
                <= MAX_EDITOR_ARGUMENT_BYTES,
    ensures
        match kept {
            Ok(kept) => argument_bytes(kept@) == argument_bytes(arguments@),
            Err(error) => error == HostPortError::AllocationFailed && arguments_refused(
                argument_bytes(arguments@),
            ),
        },
{
    let ghost models = argument_bytes(arguments@);
    let mut retained: Vec<Vec<u8>> = match vec_room(arguments.len()) {
        Some(room) => room,
        None => return Err(HostPortError::AllocationFailed),
    };
    let mut index: usize = 0;
    assert(argument_bytes(retained@) =~= models.take(0));
    while index < arguments.len()
        invariant
            index <= arguments@.len(),
            models == argument_bytes(arguments@),
            argument_bytes(retained@) == models.take(index as int),
            forall|i: int|
                0 <= i < arguments@.len() ==> (#[trigger] arguments@[i])@.len()
                    <= MAX_EDITOR_ARGUMENT_BYTES,
        decreases arguments@.len() - index,
    {
        assert(models[index as int] == arguments@[index as int]@);
        match try_copy_encoded(&arguments[index], MAX_EDITOR_ARGUMENT_BYTES) {
            Ok(argument) => {
                let ghost before = retained@;
                retained.push(argument);
                assert(argument_bytes(retained@) =~= argument_bytes(before).push(argument@));
                assert(argument_bytes(retained@) =~= models.take(index + 1));
            },
            Err(error) => return Err(error),
        }
        index += 1;
    }
    assert(models.take(index as int) =~= models);
    Ok(retained)
}

/// Every argument of an accepted list is accepted.
proof fn lemma_each_accepted(arguments: Seq<Seq<u8>>, count: nat, index: int)
    requires
        first_argument_failure(arguments, count) is None,
        0 <= index < count,
    ensures
        argument_failure(arguments[index]) is None,
    decreases count,
{
    if index < count - 1 {
        lemma_each_accepted(arguments, (count - 1) as nat, index);
    }
}

/// Why the editor of an environment variable is refused.
pub open spec fn environment_failure(value: Seq<u8>) -> Option<HostPortError> {
    if value.len() == 0 || !rehome::has_no_zero(value) {
        Some(HostPortError::InvalidInput)
    } else if value.len() > MAX_EDITOR_ARGUMENT_BYTES {
        Some(HostPortError::CapacityExceeded)
    } else {
        None
    }
}

/// Why an optional editor of an environment variable is refused.
pub open spec fn optional_environment_failure(value: Option<Vec<u8>>) -> Option<HostPortError> {
    match value {
        Some(value) => environment_failure(value@),
        None => None,
    }
}

/// The bytes of an optional editor.
pub open spec fn optional_bytes(value: Option<Vec<u8>>) -> Option<Seq<u8>> {
    match value {
        Some(value) => Some(value@),
        None => None,
    }
}

/// Whether the allocator may have refused room for an optional editor.
pub open spec fn editor_refused(value: Option<Seq<u8>>) -> bool {
    value is Some && memory::bytes_refused(value->0.len() as int)
}

fn validate_environment_editor(value: Option<Vec<u8>>) -> (kept: Result<
    Option<Vec<u8>>,
    HostPortError,
>)
    ensures
        match optional_environment_failure(value) {
            Some(failure) => kept == Err::<Option<Vec<u8>>, HostPortError>(failure),
            None => match kept {
                Ok(kept) => optional_bytes(kept) == optional_bytes(value),
                Err(error) => error == HostPortError::AllocationFailed && editor_refused(
                    optional_bytes(value),
                ),
            },
        },
{
    let value = match value {
        Some(value) => value,
        None => return Ok(None),
    };
    if value.len() == 0 || !is_zero_free(value.as_slice()) {
        return Err(HostPortError::InvalidInput);
    }
    match try_rehome_encoded(value, MAX_EDITOR_ARGUMENT_BYTES) {
        Ok(kept) => Ok(Some(kept)),
        Err(error) => Err(error),
    }
}

/// Bounded precedence inputs for adapter editor resolution.
pub struct EditorResolutionRequest {
    explicit: Option<EditorCommand>,
    visual: Option<Vec<u8>>,
    editor: Option<Vec<u8>>,
    mode: EditorSupervisionMode,
}

/// Contents of an [`EditorResolutionRequest`].
pub struct ResolutionModel {
    pub explicit: Option<EditorCommand>,
    pub visual: Option<Seq<u8>>,
    pub editor: Option<Seq<u8>>,
    pub mode: EditorSupervisionMode,
}

impl View for EditorResolutionRequest {
    type V = ResolutionModel;

    closed spec fn view(&self) -> ResolutionModel {
        ResolutionModel {
            explicit: self.explicit,
            visual: optional_bytes(self.visual),
            editor: optional_bytes(self.editor),
            mode: self.mode,
        }
    }
}

impl EditorResolutionRequest {
    /// Keeps the candidates for the editor.
    pub fn try_new(
        explicit: Option<EditorCommand>,
        visual: Option<Vec<u8>>,
        editor: Option<Vec<u8>>,
        mode: EditorSupervisionMode,
    ) -> (request: Result<Self, HostPortError>)
        ensures
            match (optional_environment_failure(visual), optional_environment_failure(editor)) {
                (Some(failure), _) => request == Err::<Self, HostPortError>(failure),
                (None, Some(failure)) => request is Err && (request->Err_0 == failure
                    || request->Err_0 == HostPortError::AllocationFailed && editor_refused(
                    optional_bytes(visual),
                )),
                (None, None) => match request {
                    Ok(request) => request@ == (ResolutionModel {
                        explicit,
                        visual: optional_bytes(visual),
                        editor: optional_bytes(editor),
                        mode,
                    }),
                    Err(error) => error == HostPortError::AllocationFailed && (editor_refused(
                        optional_bytes(visual),
                    ) || editor_refused(optional_bytes(editor))),
                },
            },
    {
        let visual = match validate_environment_editor(visual) {
            Ok(visual) => visual,
            Err(error) => return Err(error),
        };
        let editor = match validate_environment_editor(editor) {
            Ok(editor) => editor,
            Err(error) => return Err(error),
        };
        Ok(EditorResolutionRequest { explicit, visual, editor, mode })
    }

    pub fn into_parts(self) -> (parts: (
        Option<EditorCommand>,
        Option<Vec<u8>>,
        Option<Vec<u8>>,
        EditorSupervisionMode,
    ))
        ensures
            parts.0 == self@.explicit,
            optional_bytes(parts.1) == self@.visual,
            optional_bytes(parts.2) == self@.editor,
            parts.3 == self@.mode,
    {
        (self.explicit, self.visual, self.editor, self.mode)
    }
}

/// Paths that an editor may open in a workspace: a file in it, or the whole
/// workspace where it holds the whole vault.
pub open spec fn is_editor_path(lease: LeaseModel, path: PathModel) -> bool {
    &&& paths::is_valid_absolute(path)
    &&& paths::starts_with(path, lease.root)
    &&& !paths::same_path(path, lease.root) || lease.mode is WholeVault
}

/// Bounded editor process request.
pub struct EditorLaunchRequest {
    workspace_id: WorkspaceId,
    resolution: EditorResolutionRequest,
    workspace_file: NativePath,
    process_generation: u64,
}

/// Contents of an [`EditorLaunchRequest`].
pub struct LaunchModel {
    pub workspace_id: [u8; 16],
    pub resolution: ResolutionModel,
    pub workspace_file: PathModel,
    pub process_generation: u64,
}

impl View for EditorLaunchRequest {
    type V = LaunchModel;

    closed spec fn view(&self) -> LaunchModel {
        LaunchModel {
            workspace_id: self.workspace_id@,
            resolution: self.resolution@,
            workspace_file: self.workspace_file@,
            process_generation: self.process_generation,
        }
    }
}

impl EditorLaunchRequest {
    /// Keeps a request for a path in a workspace. Generations count from one.
    pub fn try_new(
        lease: &WorkspaceLease,
        resolution: EditorResolutionRequest,
        workspace_file: NativePath,
        process_generation: u64,
    ) -> (request: Result<Self, HostPortError>)
        ensures
            ({
                let accepted = is_editor_path(lease@, workspace_file@) && process_generation != 0;
                &&& !accepted ==> request == Err::<Self, HostPortError>(HostPortError::InvalidInput)
                &&& accepted ==> match request {
                    Ok(request) => request@ == (LaunchModel {
                        workspace_id: lease@.id,
                        resolution: resolution@,
                        workspace_file: workspace_file@,
                        process_generation,
                    }),
                    Err(error) => error == HostPortError::AllocationFailed && (
                    paths::path_refused(workspace_file@) || memory::string_refused(32)),
                }
            }),
    {
        if !workspace_file.is_valid_absolute_path() || !workspace_file.starts_with(lease.root())
            || workspace_file.is_same_path(lease.root()) && lease.mode()
            != WorkspaceMode::WholeVault || process_generation == 0 {
            return Err(HostPortError::InvalidInput);
        }
        let workspace_file = match workspace_file.try_rehome(MAX_NATIVE_PATH_BYTES) {
            Ok(path) => path,
            Err(error) => return Err(error),
        };
        let workspace_id = match lease.id().try_duplicate() {
            Ok(id) => id,
            Err(error) => return Err(error),
        };
        Ok(EditorLaunchRequest { workspace_id, resolution, workspace_file, process_generation })
    }

    pub fn workspace_file(&self) -> (path: &NativePath)
        ensures
            path@ == self@.workspace_file,
    {
        &self.workspace_file
    }

    pub fn workspace_id(&self) -> (id: &WorkspaceId)
        ensures
            id@ == self@.workspace_id,
    {
        &self.workspace_id
    }

    pub fn process_generation(&self) -> (generation: u64)
        ensures
            generation == self@.process_generation,
    {
        self.process_generation
    }

    pub fn into_parts(self) -> (parts: (WorkspaceId, EditorResolutionRequest, NativePath, u64))
        ensures
            parts.0@ == self@.workspace_id,
            parts.1@ == self@.resolution,
            parts.2@ == self@.workspace_file,
            parts.3 == self@.process_generation,
    {
        (self.workspace_id, self.resolution, self.workspace_file, self.process_generation)
    }
}

/// Bounded editor terminal status.
#[derive(Clone, Copy, Debug, PartialEq, Eq)]
pub struct EditorExit {
    code: Option<i32>,
}

impl View for EditorExit {
    type V = Option<i32>;

    closed spec fn view(&self) -> Option<i32> {
        self.code
    }
}

impl EditorExit {
    pub fn new(code: Option<i32>) -> (exit: Self)
        ensures
            exit@ == code,
    {
        EditorExit { code }
    }

    pub fn code(&self) -> (code: Option<i32>)
        ensures
            code == self@,
    {
        self.code
    }
}

/// Process-registry state sampled by lock orchestration.
#[derive(Clone, Copy, Debug, PartialEq, Eq, Structural)]
pub struct EditorQuiescence {
    active: usize,
    unreaped: usize,
}

impl View for EditorQuiescence {
    type V = (usize, usize);

    closed spec fn view(&self) -> (usize, usize) {
        (self.active, self.unreaped)
    }
}

impl EditorQuiescence {
    pub fn new(active: usize, unreaped: usize) -> (state: Self)
        ensures
            state@ == (active, unreaped),
    {
        EditorQuiescence { active, unreaped }
    }

    pub fn active(self) -> (active: usize)
        ensures
            active == self@.0,
    {
        self.active
    }

    pub fn unreaped(self) -> (unreaped: usize)
        ensures
            unreaped == self@.1,
    {
        self.unreaped
    }

    /// Whether no editor runs and none waits to be reaped.
    pub fn is_quiescent(self) -> (quiescent: bool)
        ensures
            quiescent == (self@ == (0usize, 0usize)),
    {
        self.active == 0 && self.unreaped == 0
    }
}

/// One editor process.
pub trait EditorProcess {
    fn try_wait(&mut self) -> Result<Option<EditorExit>, HostPortError>;

    fn request_stop(&mut self) -> Result<(), HostPortError>;

    fn force_stop(&mut self) -> Result<(), HostPortError>;
}

} // verus!
