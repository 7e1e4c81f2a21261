//! Native paths, logical workspace paths and their collision registry.
use vstd::hash_map::StringHashMap;
use vstd::prelude::*;

use crate::bytes::same_slices;
use crate::memory;
use crate::memory::{capacity_of, text_capacity, text_room};
use crate::ports::rehome;
use crate::ports::rehome::{is_zero_free, try_rehome_encoded};
use crate::ports::{
    HostPortError, NameError, MAX_LOGICAL_COMPONENT_BYTES, MAX_LOGICAL_PATH_BYTES,
    MAX_LOGICAL_PATH_DEPTH, MAX_NATIVE_PATH_BYTES, MAX_WORKSPACE_COLLISION_KEY_BYTES,
    MAX_WORKSPACE_PATHS,
};

verus! {

/// One component of a native path, as the host's path rules split it.
#[derive(Clone, Debug, PartialEq, Eq)]
pub enum PathComponent {
    Prefix(Vec<u8>),
    RootDir,
    CurDir,
    ParentDir,
    Normal(Vec<u8>),
}

/// One path component.
pub enum ComponentModel {
    Prefix(Seq<u8>),
    RootDir,
    CurDir,
    ParentDir,
    Normal(Seq<u8>),
}

impl View for PathComponent {
    type V = ComponentModel;

    open spec fn view(&self) -> ComponentModel {
        match *self {
            PathComponent::Prefix(bytes) => ComponentModel::Prefix(bytes@),
            PathComponent::RootDir => ComponentModel::RootDir,
            PathComponent::CurDir => ComponentModel::CurDir,
            PathComponent::ParentDir => ComponentModel::ParentDir,
            PathComponent::Normal(bytes) => ComponentModel::Normal(bytes@),
        }
    }
}

/// Path components as values.
pub open spec fn component_models(components: Seq<PathComponent>) -> Seq<ComponentModel> {
    components.map_values(|component: PathComponent| component@)
}

fn same_component(a: &PathComponent, b: &PathComponent) -> (same: bool)
    ensures
        same == (a@ == b@),
{
    match (a, b) {
        (PathComponent::Prefix(a), PathComponent::Prefix(b)) => same_slices(
            a.as_slice(),
            b.as_slice(),
        ),
        (PathComponent::RootDir, PathComponent::RootDir) => true,
        (PathComponent::CurDir, PathComponent::CurDir) => true,
        (PathComponent::ParentDir, PathComponent::ParentDir) => true,
        (PathComponent::Normal(a), PathComponent::Normal(b)) => same_slices(
            a.as_slice(),
            b.as_slice(),
        ),
        _ => false,
    }
}

fn copy_bytes(source: &Vec<u8>) -> (copy: Vec<u8>)
    ensures
        copy@ == source@,
{
    let mut copy: Vec<u8> = Vec::new();
    copy.extend_from_slice(source.as_slice());
    assert(copy@ =~= source@);
    copy
}

fn copy_component(source: &PathComponent) -> (copy: PathComponent)
    ensures
        copy@ == source@,
{
    match source {
        PathComponent::Prefix(bytes) => PathComponent::Prefix(copy_bytes(bytes)),
        PathComponent::RootDir => PathComponent::RootDir,
        PathComponent::CurDir => PathComponent::CurDir,
        PathComponent::ParentDir => PathComponent::ParentDir,
        PathComponent::Normal(bytes) => PathComponent::Normal(copy_bytes(bytes)),
    }
}

/// A native path together with how the host's path rules read it.
#[derive(Clone, Debug, PartialEq, Eq)]
pub struct NativePath {
    encoded: Vec<u8>,
    absolute: bool,
    components: Vec<PathComponent>,
}

/// Contents of a [`NativePath`].
pub struct PathModel {
    pub encoded: Seq<u8>,
    pub absolute: bool,
    pub components: Seq<ComponentModel>,
}

/// Whether the allocator may have refused room for a copy of a path.
pub open spec fn path_refused(path: PathModel) -> bool {
    memory::bytes_refused(path.encoded.len() as int)
}

impl View for NativePath {
    type V = PathModel;

    closed spec fn view(&self) -> PathModel {
        PathModel {
            encoded: self.encoded@,
            absolute: self.absolute,
            components: component_models(self.components@),
        }
    }
}

/// Whether a component may stand at its place in a plain absolute path: a
/// prefix only first, one root directory among the first two, and otherwise
/// names.
pub open spec fn component_is_plain(components: Seq<ComponentModel>, index: int) -> bool {
    match components[index] {
        ComponentModel::Prefix(_) => index == 0,
        ComponentModel::RootDir => index <= 1 && forall|earlier: int|
            0 <= earlier < index ==> !(#[trigger] components[earlier] is RootDir),
        ComponentModel::Normal(name) => name.len() > 0,
        _ => false,
    }
}

/// Absolute paths that the service keeps: bounded, without a zero byte, rooted,
/// and without any step to the current or the parent directory.
pub open spec fn is_valid_absolute(path: PathModel) -> bool {
    &&& path.absolute
    &&& rehome::is_bounded(path.encoded, MAX_NATIVE_PATH_BYTES as nat)
    &&& rehome::has_no_zero(path.encoded)
    &&& forall|index: int|
        0 <= index < path.components.len() ==> #[trigger] component_is_plain(
            path.components,
            index,
        )
    &&& exists|index: int|
        0 <= index < path.components.len() && #[trigger] path.components[index] is RootDir
}

/// Whether two paths name the same place by their components.
pub open spec fn same_path(a: PathModel, b: PathModel) -> bool {
    a.components == b.components
}

/// Whether a path lies at or below another by its components.
pub open spec fn starts_with(path: PathModel, base: PathModel) -> bool {
    base.components.len() <= path.components.len() && path.components.subrange(
        0,
        base.components.len() as int,
    ) == base.components
}

impl NativePath {
    /// Takes over a path as the host's path rules read it.
    pub fn new(encoded: Vec<u8>, absolute: bool, components: Vec<PathComponent>) -> (path: Self)
        ensures
            path@ == (PathModel {
                encoded: encoded@,
                absolute,
                components: component_models(components@),
            }),
    {
        NativePath { encoded, absolute, components }
    }

    /// The encoded path.
    pub fn as_encoded_bytes(&self) -> (bytes: &[u8])
        ensures
            bytes@ == self@.encoded,
    {
        self.encoded.as_slice()
    }

    /// Number of encoded bytes.
    pub fn encoded_len(&self) -> (length: usize)
        ensures
            length == self@.encoded.len(),
    {
        self.encoded.len()
    }

    /// Memory retained for the encoded path.
    pub fn retained_capacity(&self) -> (capacity: usize)
        ensures
            capacity >= self@.encoded.len(),
    {
        capacity_of(&self.encoded)
    }

    /// Whether the service keeps this absolute path.
    pub fn is_valid_absolute_path(&self) -> (valid: bool)
        ensures
            valid == is_valid_absolute(self@),
    {
        let ghost model = component_models(self.components@);
        if !self.absolute || self.encoded.len() == 0 || self.encoded.len() > MAX_NATIVE_PATH_BYTES
            || !is_zero_free(self.encoded.as_slice()) {
            return false;
        }
        let mut root_seen = false;
        let mut index: usize = 0;
        while index < self.components.len()
            invariant
                index <= self.components@.len(),
                model == component_models(self.components@),
                forall|i: int| 0 <= i < index ==> #[trigger] component_is_plain(model, i),
                root_seen == (exists|i: int| 0 <= i < index && #[trigger] model[i] is RootDir),
            ensures
                index == self.components@.len(),
                model == component_models(self.components@),
                forall|i: int| 0 <= i < index ==> #[trigger] component_is_plain(model, i),
                root_seen == (exists|i: int| 0 <= i < index && #[trigger] model[i] is RootDir),
            decreases self.components@.len() - index,
        {
            assert(model[index as int] == self.components@[index as int]@);
            let plain = match &self.components[index] {
                PathComponent::Prefix(_) => index == 0,
                PathComponent::RootDir => index <= 1 && !root_seen,
                PathComponent::Normal(name) => name.len() > 0,
                _ => false,
            };
            if !plain {
                assert(!component_is_plain(model, index as int));
                return false;
            }
            assert(component_is_plain(model, index as int));
            if let PathComponent::RootDir = &self.components[index] {
                assert(model[index as int] is RootDir);
                root_seen = true;
            }
            index += 1;
        }
        root_seen
    }

    /// Whether two paths name the same place.
    pub fn is_same_path(&self, other: &NativePath) -> (same: bool)
        ensures
            same == same_path(self@, other@),
    {
        if self.components.len() != other.components.len() {
            return false;
        }
        let same = self.starts_with(other);
        assert(self@.components.subrange(0, self@.components.len() as int)
            =~= self@.components);
        same
    }

    /// Whether this path lies at or below `base`.
    pub fn starts_with(&self, base: &NativePath) -> (below: bool)
        ensures
            below == starts_with(self@, base@),
    {
        if base.components.len() > self.components.len() {
            return false;
        }
        let ghost own = self@.components;
        let ghost wanted = base@.components;
        let mut index: usize = 0;
        while index < base.components.len()
            invariant
                index <= base.components@.len() <= self.components@.len(),
                own == component_models(self.components@),
                wanted == component_models(base.components@),
                own == self@.components,
                wanted == base@.components,
                forall|i: int| 0 <= i < index ==> own[i] == wanted[i],
            decreases base.components@.len() - index,
        {
            assert(own[index as int] == self.components@[index as int]@);
            assert(wanted[index as int] == base.components@[index as int]@);
            if !same_component(&self.components[index], &base.components[index]) {
                assert(own.subrange(0, wanted.len() as int)[index as int] != wanted[index as int]);
                return false;
            }
            index += 1;
        }
        assert(own.subrange(0, wanted.len() as int) =~= wanted);
        true
    }

    /// Whether the last component is exactly this name.
    pub fn has_file_name(&self, name: &[u8]) -> (named: bool)
        ensures
            named == (self@.components.len() > 0 && self@.components.last()
                == ComponentModel::Normal(name@)),
    {
        if self.components.len() == 0 {
            return false;
        }
        assert(self@.components.last() == self.components@[self.components@.len() - 1]@);
        match &self.components[self.components.len() - 1] {
            PathComponent::Normal(last) => same_slices(last.as_slice(), name),
            _ => false,
        }
    }

    /// Keeps the path in memory of its exact size.
    pub fn try_rehome(self, maximum_bytes: usize) -> (kept: Result<NativePath, HostPortError>)
        ensures
            self@.encoded.len() > maximum_bytes ==> kept == Err::<NativePath, HostPortError>(
                HostPortError::CapacityExceeded,
            ),
            self@.encoded.len() <= maximum_bytes ==> match kept {
                Ok(path) => path@ == self@,
                Err(error) => error == HostPortError::AllocationFailed && path_refused(self@),
            },
    {
        let encoded = match try_rehome_encoded(self.encoded, maximum_bytes) {
            Ok(encoded) => encoded,
            Err(error) => return Err(error),
        };
        Ok(NativePath { encoded, absolute: self.absolute, components: self.components })
    }

    /// Copies the path into memory of its exact size.
    pub fn try_copy(&self, maximum_bytes: usize) -> (kept: Result<NativePath, HostPortError>)
        ensures
            self@.encoded.len() > maximum_bytes ==> kept == Err::<NativePath, HostPortError>(
                HostPortError::CapacityExceeded,
            ),
            self@.encoded.len() <= maximum_bytes ==> match kept {
                Ok(path) => path@ == self@,
                Err(error) => error == HostPortError::AllocationFailed && path_refused(self@),
            },
    {
        let encoded = match try_rehome_encoded(copy_bytes(&self.encoded), maximum_bytes) {
            Ok(encoded) => encoded,
            Err(error) => return Err(error),
        };
        let mut components: Vec<PathComponent> = Vec::new();
        let mut index: usize = 0;
        while index < self.components.len()
            invariant
                index <= self.components@.len(),
                components@.len() == index,
                forall|i: int|
                    0 <= i < index ==> (#[trigger] components@[i])@ == self.components@[i]@,
            decreases self.components@.len() - index,
        {
            components.push(copy_component(&self.components[index]));
            index += 1;
        }
        assert(component_models(components@) =~= component_models(self.components@));
        Ok(NativePath { encoded, absolute: self.absolute, components })
    }
}

/// Depth of a logical path: the number of components that `/` separates.
pub open spec fn logical_depth(path: Seq<u8>) -> nat
    decreases path.len(),
{
    if path.len() == 0 {
        1
    } else {
        logical_depth(path.drop_last()) + (if path.last() == 0x2f {
            1nat
        } else {
            0
        })
    }
}

/// Number of bytes behind the last `/`.
pub open spec fn last_component_length(path: Seq<u8>) -> nat
    decreases path.len(),
{
    if path.len() == 0 || path.last() == 0x2f {
        0
    } else {
        last_component_length(path.drop_last()) + 1
    }
}

/// Number of bytes of the longest component.
pub open spec fn longest_component(path: Seq<u8>) -> nat
    decreases path.len(),
{
    if path.len() == 0 {
        0
    } else {
        let before = longest_component(path.drop_last());
        let last = last_component_length(path);
        if before <= last {
            last
        } else {
            before
        }
    }
}

/// Bounds of a logical path.
pub open spec fn logical_path_fits(path: Seq<u8>) -> bool {
    &&& path.len() <= MAX_LOGICAL_PATH_BYTES
    &&& logical_depth(path) <= MAX_LOGICAL_PATH_DEPTH
    &&& longest_component(path) <= MAX_LOGICAL_COMPONENT_BYTES
}

proof fn lemma_prefix_bounds(path: Seq<u8>, length: int)
    requires
        0 <= length <= path.len(),
    ensures
        logical_depth(path.subrange(0, length)) <= logical_depth(path),
        longest_component(path.subrange(0, length)) <= longest_component(path),
    decreases path.len() - length,
{
    if length < path.len() {
        lemma_prefix_bounds(path, length + 1);
        assert(path.subrange(0, length + 1).drop_last() =~= path.subrange(0, length));
    } else {
        assert(path.subrange(0, length) =~= path);
    }
}

/// Whether a logical path keeps to its bounds.
pub fn logical_path_is_bounded(path: &[u8]) -> (bounded: bool)
    ensures
        bounded == logical_path_fits(path@),
{
    if path.len() > MAX_LOGICAL_PATH_BYTES {
        return false;
    }
    let mut depth: usize = 1;
    let mut component: usize = 0;
    let mut index: usize = 0;
    assert(path@.subrange(0, 0) =~= Seq::<u8>::empty());
    while index < path.len()
        invariant
            index <= path@.len() <= MAX_LOGICAL_PATH_BYTES,
            depth == logical_depth(path@.subrange(0, index as int)),
            component == last_component_length(path@.subrange(0, index as int)),
            depth <= index + 1,
            component <= index,
            depth <= MAX_LOGICAL_PATH_DEPTH,
            longest_component(path@.subrange(0, index as int)) <= MAX_LOGICAL_COMPONENT_BYTES,
        decreases path@.len() - index,
    {
        let ghost after = path@.subrange(0, index + 1);
        assert(after.drop_last() =~= path@.subrange(0, index as int));
        assert(after.last() == path@[index as int]);
        if path[index] == 0x2f {
            depth += 1;
            component = 0;
        } else {
            component += 1;
        }
        if depth > MAX_LOGICAL_PATH_DEPTH || component > MAX_LOGICAL_COMPONENT_BYTES {
            proof {
                lemma_prefix_bounds(path@, index + 1);
            }
            return false;
        }
        index += 1;
    }
    assert(path@.subrange(0, index as int) =~= path@);
    true
}

/// What the portable-name rules say of one logical path.
pub struct LogicalParse {
    /// Whether the normalized path can be rendered under the path bound.
    pub rendered: Result<(), NameError>,
    /// Key that two paths share when a host could confuse them.
    pub collision_key: Result<String, NameError>,
}

/// A normalized portable logical path that is safe to pass to an adapter.
pub struct LogicalWorkspacePath {
    path: String,
    collision_key: Result<String, HostPortError>,
}

/// Contents of a [`LogicalWorkspacePath`].
pub struct LogicalPathModel {
    pub path: Seq<char>,
    pub collision_key: Result<Seq<char>, HostPortError>,
}

impl View for LogicalWorkspacePath {
    type V = LogicalPathModel;

    closed spec fn view(&self) -> LogicalPathModel {
        LogicalPathModel {
            path: self.path@,
            collision_key: match self.collision_key {
                Ok(key) => Ok(key@),
                Err(error) => Err(error),
            },
        }
    }
}

/// Host failure of a name that could not be parsed.
pub open spec fn parse_failure(error: NameError) -> HostPortError {
    match error {
        NameError::AllocationFailed => HostPortError::AllocationFailed,
        NameError::CapacityExceeded => HostPortError::CapacityExceeded,
        NameError::Invalid => HostPortError::InvalidInput,
    }
}

/// Host failure of a parsed name that could not be rendered.
pub open spec fn render_failure(error: NameError) -> HostPortError {
    match error {
        NameError::AllocationFailed => HostPortError::AllocationFailed,
        _ => HostPortError::CapacityExceeded,
    }
}

fn map_parse_failure(error: NameError) -> (mapped: HostPortError)
    ensures
        mapped == parse_failure(error),
{
    match error {
        NameError::AllocationFailed => HostPortError::AllocationFailed,
        NameError::CapacityExceeded => HostPortError::CapacityExceeded,
        NameError::Invalid => HostPortError::InvalidInput,
    }
}

fn map_render_failure(error: NameError) -> (mapped: HostPortError)
    ensures
        mapped == render_failure(error),
{
    match error {
        NameError::AllocationFailed => HostPortError::AllocationFailed,
        _ => HostPortError::CapacityExceeded,
    }
}

/// The failure of a logical path, if its text and its parse have one.
pub open spec fn logical_path_failure(
    path: Option<Seq<char>>,
    parsed: Result<LogicalParse, NameError>,
) -> Option<HostPortError> {
    if path is None {
        Some(HostPortError::InvalidInput)
    } else if !logical_path_fits(vstd::utf8::encode_utf8(path->0)) {
        Some(HostPortError::CapacityExceeded)
    } else {
        match parsed {
            Err(error) => Some(parse_failure(error)),
            Ok(parse) => match parse.rendered {
                Err(error) => Some(render_failure(error)),
                Ok(_) => None,
            },
        }
    }
}

/// A path's text, where the native path is text.
pub open spec fn text_of(path: Option<String>) -> Option<Seq<char>> {
    match path {
        Some(path) => Some(path@),
        None => None,
    }
}

impl LogicalWorkspacePath {
    /// Accepts a logical path that keeps to its bounds and that the
    /// portable-name rules accept.
    ///
    /// `path` is the text of the native path, or nothing where it is no text.
    /// `parsed` is what the portable-name rules say of that text.
    pub fn new(path: Option<String>, parsed: Result<LogicalParse, NameError>) -> (accepted: Result<
        Self,
        HostPortError,
    >)
        ensures
            match logical_path_failure(text_of(path), parsed) {
                Some(failure) => accepted == Err::<Self, HostPortError>(failure),
                None => match accepted {
                    Ok(accepted) => accepted@ == (LogicalPathModel {
                        path: path->0@,
                        collision_key: match parsed->Ok_0.collision_key {
                            Ok(key) => Ok(key@),
                            Err(error) => Err(render_failure(error)),
                        },
                    }),
                    Err(error) => error == HostPortError::AllocationFailed
                        && memory::string_refused(text_bytes(path->0@) as int),
                },
            },
    {
        let path = match path {
            Some(path) => path,
            None => return Err(HostPortError::InvalidInput),
        };
        if !logical_path_is_bounded(path.as_str().as_bytes()) {
            return Err(HostPortError::CapacityExceeded);
        }
        let parse = match parsed {
            Ok(parse) => parse,
            Err(error) => return Err(map_parse_failure(error)),
        };
        if let Err(error) = parse.rendered {
            return Err(map_render_failure(error));
        }
        let room = text_room(path.as_str().as_bytes().len());
        LogicalWorkspacePath::over(path.as_str(), parse, room)
    }

    /// Keeps an accepted logical path in its room, or not where the room was
    /// refused.
    pub fn over(path: &str, parse: LogicalParse, room: Option<String>) -> (kept: Result<
        Self,
        HostPortError,
    >)
        requires
            room is Some ==> room->0@ == Seq::<char>::empty(),
        ensures
            room is None ==> kept == Err::<Self, HostPortError>(HostPortError::AllocationFailed),
            room is Some ==> kept is Ok && kept->Ok_0@ == (LogicalPathModel {
                path: path@,
                collision_key: match parse.collision_key {
                    Ok(key) => Ok(key@),
                    Err(error) => Err(render_failure(error)),
                },
            }),
    {
        let mut retained = match room {
            Some(room) => room,
            None => return Err(HostPortError::AllocationFailed),
        };
        retained.append(path);
        assert(retained@ =~= path@);
        let collision_key = match parse.collision_key {
            Ok(key) => Ok(key),
            Err(error) => Err(map_render_failure(error)),
        };
        Ok(LogicalWorkspacePath { path: retained, collision_key })
    }

    /// The path as it was given.
    pub fn as_path(&self) -> (path: &str)
        ensures
            path@ == self@.path,
    {
        self.path.as_str()
    }

    /// Memory retained for the path.
    pub fn retained_capacity(&self) -> (capacity: usize)
        ensures
            capacity >= self@.path.len(),
    {
        text_capacity(&self.path)
    }
}

/// Bounded collision registry checked before logical paths enter an adapter.
pub struct WorkspacePathRegistry {
    maximum: usize,
    collision_key_bytes: usize,
    collision_keys: StringHashMap<String>,
}

/// Contents of a [`WorkspacePathRegistry`].
pub struct RegistryModel {
    pub maximum: usize,
    pub collision_key_bytes: usize,
    pub paths: Map<Seq<char>, Seq<char>>,
}

impl View for WorkspacePathRegistry {
    type V = RegistryModel;

    closed spec fn view(&self) -> RegistryModel {
        RegistryModel {
            maximum: self.maximum,
            collision_key_bytes: self.collision_key_bytes,
            paths: self.collision_keys@.map_values(|path: String| path@),
        }
    }
}

/// Encoded length of a text.
pub open spec fn text_bytes(text: Seq<char>) -> nat {
    vstd::utf8::encode_utf8(text).len()
}

/// Invariant of a registry: it stays within its bounds.
pub open spec fn registry_wf(registry: RegistryModel) -> bool {
    &&& registry.paths.dom().finite()
    &&& registry.paths.len() <= registry.maximum
    &&& 0 < registry.maximum <= MAX_WORKSPACE_PATHS
    &&& registry.collision_key_bytes <= MAX_WORKSPACE_COLLISION_KEY_BYTES
}

/// What the registration of a logical path answers: a path may be registered
/// again, but never beside another path that a host could confuse with it.
pub open spec fn insert_answer(registry: RegistryModel, path: LogicalPathModel) -> Result<
    (),
    HostPortError,
> {
    match path.collision_key {
        Err(error) => Err(error),
        Ok(key) => if registry.paths.contains_key(key) {
            if registry.paths[key] == path.path {
                Ok(())
            } else {
                Err(HostPortError::InvalidInput)
            }
        } else if registry.paths.len() == registry.maximum || text_bytes(key)
            > MAX_LOGICAL_PATH_BYTES || registry.collision_key_bytes + text_bytes(key)
            + text_bytes(path.path) > MAX_WORKSPACE_COLLISION_KEY_BYTES {
            Err(HostPortError::CapacityExceeded)
        } else {
            Ok(())
        },
    }
}

/// Whether the registration of a logical path needs room: it is accepted and was
/// not registered before.
pub open spec fn needs_room(registry: RegistryModel, path: LogicalPathModel) -> bool {
    &&& insert_answer(registry, path) is Ok
    &&& !registry.paths.contains_key(path.collision_key->Ok_0)
}

/// The registry after a logical path was registered.
pub open spec fn after_insert(registry: RegistryModel, path: LogicalPathModel) -> RegistryModel {
    match path.collision_key {
        Ok(key) if insert_answer(registry, path) is Ok && !registry.paths.contains_key(
            key,
        ) => RegistryModel {
            collision_key_bytes: (registry.collision_key_bytes + text_bytes(key) + text_bytes(
                path.path,
            )) as usize,
            paths: registry.paths.insert(key, path.path),
            ..registry
        },
        _ => registry,
    }
}

impl WorkspacePathRegistry {
    /// An empty registry for at most `maximum` paths.
    pub fn new(maximum: usize) -> (registry: Result<Self, HostPortError>)
        ensures
            registry is Ok <==> 0 < maximum <= MAX_WORKSPACE_PATHS,
            registry is Err ==> registry->Err_0 == HostPortError::InvalidInput,
            registry is Ok ==> registry->Ok_0@ == (RegistryModel {
                maximum,
                collision_key_bytes: 0,
                paths: Map::empty(),
            }) && registry_wf(registry->Ok_0@),
    {
        if maximum == 0 || maximum > MAX_WORKSPACE_PATHS {
            return Err(HostPortError::InvalidInput);
        }
        let registry = WorkspacePathRegistry {
            maximum,
            collision_key_bytes: 0,
            collision_keys: StringHashMap::new(),
        };
        assert(registry@.paths =~= Map::empty());
        Ok(registry)
    }

    /// Number of registered paths.
    pub fn len(&self) -> (length: usize)
        ensures
            length == self@.paths.len(),
    {
        proof {
            lemma_mapped_len(self.collision_keys@);
        }
        self.collision_keys.len()
    }

    /// Registers one logical path.
    pub fn insert(&mut self, path: &LogicalWorkspacePath) -> (inserted: Result<(), HostPortError>)
        ensures
            inserted == insert_answer(old(self)@, path@) && final(self)@ == after_insert(
                old(self)@,
                path@,
            ) || needs_room(old(self)@, path@) && memory::string_refused(
                text_bytes(path@.path) as int,
            ) && inserted == Err::<(), HostPortError>(HostPortError::AllocationFailed)
                && final(self)@ == old(self)@,
            registry_wf(old(self)@) ==> registry_wf(final(self)@),
    {
        let room = text_room(path.path.as_str().as_bytes().len());
        self.insert_over(path, room)
    }

    /// Registers one logical path in the room for its text, or not where the room
    /// is needed and was refused.
    pub fn insert_over(&mut self, path: &LogicalWorkspacePath, room: Option<String>) -> (inserted:
        Result<(), HostPortError>)
        requires
            room is Some ==> room->0@ == Seq::<char>::empty(),
        ensures
            room is None && needs_room(old(self)@, path@) ==> inserted == Err::<(), HostPortError>(
                HostPortError::AllocationFailed,
            ) && final(self)@ == old(self)@,
            room is Some || !needs_room(old(self)@, path@) ==> inserted == insert_answer(
                old(self)@,
                path@,
            ) && final(self)@ == after_insert(old(self)@, path@),
            registry_wf(old(self)@) ==> registry_wf(final(self)@),
    {
        let key = match &path.collision_key {
            Ok(key) => key,
            Err(error) => return Err(*error),
        };
        if let Some(existing) = self.collision_keys.get(key.as_str()) {
            return if *existing == path.path {
                Ok(())
            } else {
                Err(HostPortError::InvalidInput)
            };
        }
        if self.len() == self.maximum {
            return Err(HostPortError::CapacityExceeded);
        }
        let key_bytes: usize = key.as_str().as_bytes().len();
        let path_bytes: usize = path.path.as_str().as_bytes().len();
        if key_bytes > MAX_LOGICAL_PATH_BYTES {
            return Err(HostPortError::CapacityExceeded);
        }
        let with_key: usize = match self.collision_key_bytes.checked_add(key_bytes) {
            Some(bytes) => bytes,
            None => return Err(HostPortError::CapacityExceeded),
        };
        let next_bytes: usize = match with_key.checked_add(path_bytes) {
            Some(bytes) => bytes,
            None => return Err(HostPortError::CapacityExceeded),
        };
        if next_bytes > MAX_WORKSPACE_COLLISION_KEY_BYTES {
            return Err(HostPortError::CapacityExceeded);
        }
        let mut retained = match room {
            Some(room) => room,
            None => return Err(HostPortError::AllocationFailed),
        };
        retained.append(path.path.as_str());
        assert(retained@ =~= path@.path);
        let ghost before = self.collision_keys@;
        self.collision_keys.insert(key.clone(), retained);
        self.collision_key_bytes = next_bytes;
        assert(self.collision_keys@.map_values(|path: String| path@) =~= before.map_values(
            |path: String| path@,
        ).insert(key@, path@.path));
        Ok(())
    }
}

proof fn lemma_mapped_len(map: Map<Seq<char>, String>)
    ensures
        map.map_values(|path: String| path@).len() == map.len(),
{
    assert(map.map_values(|path: String| path@).dom() =~= map.dom());
}

} // verus!
