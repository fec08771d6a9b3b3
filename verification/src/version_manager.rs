//! The closed set of version-pinned tools, the shapes a pinned version may
//! take, and the dispatch from a tool to its version manager.

use crate::error::Error;
use vstd::prelude::*;
use vstd::string::StringSliceAdditionalSpecFns;

verus! {

/// A tool whose invocation is pinned to a version.
#[derive(Debug, Clone, Copy, PartialEq, Eq, Hash, Structural)]
pub enum VersionedCommand {
    Node,
    Python,
}

/// Whether two strings hold the same characters in the same order, decided on
/// their UTF-8 bytes.
fn str_eq(left: &str, right: &str) -> (same: bool)
    ensures
        same == (left@ == right@),
{
    let left_bytes = left.as_bytes();
    let right_bytes = right.as_bytes();
    if left_bytes.len() != right_bytes.len() {
        return false;
    }
    let mut index: usize = 0;
    while index < left_bytes.len()
        invariant
            left_bytes@ == left.spec_bytes(),
            right_bytes@ == right.spec_bytes(),
            left_bytes@.len() == right_bytes@.len(),
            index <= left_bytes@.len(),
            forall|i: int| 0 <= i < index ==> left_bytes@[i] == right_bytes@[i],
        decreases left_bytes@.len() - index,
    {
        if left_bytes[index] != right_bytes[index] {
            return false;
        }
        index = index + 1;
    }
    proof {
        assert(left_bytes@ =~= right_bytes@);
        vstd::utf8::encode_utf8_decode_utf8(left@);
        vstd::utf8::encode_utf8_decode_utf8(right@);
    }
    true
}

impl VersionedCommand {
    /// The canonical name of the tool, as written in a manifest.
    pub open spec fn spec_command_name(self) -> Seq<char> {
        match self {
            VersionedCommand::Node => "node"@,
            VersionedCommand::Python => "python"@,
        }
    }

    /// The tool that a manifest key names, if any. The match is exact and
    /// case-sensitive, and is defined by `spec_command_name` alone.
    pub open spec fn spec_from_command_name(name: Seq<char>) -> Option<VersionedCommand> {
        if name == VersionedCommand::Node.spec_command_name() {
            Some(VersionedCommand::Node)
        } else if name == VersionedCommand::Python.spec_command_name() {
            Some(VersionedCommand::Python)
        } else {
            None
        }
    }

    pub fn get_command_name(&self) -> (name: &'static str)
        ensures
            name@ == self.spec_command_name(),
    {
        match self {
            VersionedCommand::Node => "node",
            VersionedCommand::Python => "python",
        }
    }

    /// Reads a manifest key as a tool.
    pub fn from_command_name(name: &str) -> (command: Option<VersionedCommand>)
        ensures
            command == Self::spec_from_command_name(name@),
    {
        if str_eq(name, VersionedCommand::Node.get_command_name()) {
            Some(VersionedCommand::Node)
        } else if str_eq(name, VersionedCommand::Python.get_command_name()) {
            Some(VersionedCommand::Python)
        } else {
            None
        }
    }
}

/// The name of a tool reads back as that tool, and a key reads as a tool only
/// if it is that tool's name: the two mappings are inverse to each other.
pub proof fn lemma_command_name_round_trip(command: VersionedCommand, name: Seq<char>)
    ensures
        VersionedCommand::spec_from_command_name(command.spec_command_name()) == Some(command),
        VersionedCommand::spec_from_command_name(name) == Some(command) <==> name
            == command.spec_command_name(),
{
    reveal_strlit("node");
    reveal_strlit("python");
    assert("node"@.len() != "python"@.len());
}

/// A pinned version as a manifest may write it: a bare version string, or a
/// version together with a platform.
#[derive(Debug, PartialEq, Eq)]
pub enum VersionInfo {
    Simple(String),
    Complex { version: String, platform: String },
}

impl VersionInfo {
    /// The version string, whichever shape carries it.
    pub open spec fn spec_version(self) -> Seq<char> {
        match self {
            VersionInfo::Simple(version) => version@,
            VersionInfo::Complex { version, .. } => version@,
        }
    }

    pub fn get_version(&self) -> (version: &str)
        ensures
            version@ == self.spec_version(),
    {
        match self {
            VersionInfo::Simple(version) => version.as_str(),
            VersionInfo::Complex { version, .. } => version.as_str(),
        }
    }
}

impl Clone for VersionInfo {
    fn clone(&self) -> (copy: Self)
        ensures
            copy == *self,
    {
        match self {
            VersionInfo::Simple(version) => VersionInfo::Simple(version.clone()),
            VersionInfo::Complex { version, platform } => VersionInfo::Complex {
                version: version.clone(),
                platform: platform.clone(),
            },
        }
    }
}

/// Both shapes expose the same version string, and the platform of the
/// two-field shape has no part in it.
pub proof fn lemma_version_ignores_shape(version: String, platform: String, other: String)
    ensures
        VersionInfo::Simple(version).spec_version() == version@,
        (VersionInfo::Complex { version, platform }).spec_version() == version@,
        (VersionInfo::Complex { version, platform }).spec_version() == (VersionInfo::Complex {
            version,
            platform: other,
        }).spec_version(),
{
}

/// The handle of the JS runtime's version manager, with the version it was
/// resolved for.
#[derive(Debug, Clone, PartialEq, Eq)]
pub struct NodeVersionManager {
    pub version_info: VersionInfo,
}

impl NodeVersionManager {
    pub fn with_version_info(version_info: &VersionInfo) -> (manager: Self)
        ensures
            manager.version_info == *version_info,
    {
        NodeVersionManager { version_info: version_info.clone() }
    }
}

/// The handle of the Python runtime's version manager, with the version it was
/// resolved for.
#[derive(Debug, Clone, PartialEq, Eq)]
pub struct PythonVersionManager {
    pub version_info: VersionInfo,
}

impl PythonVersionManager {
    pub fn with_version_info(version_info: &VersionInfo) -> (manager: Self)
        ensures
            manager.version_info == *version_info,
    {
        PythonVersionManager { version_info: version_info.clone() }
    }
}

/// A version manager ready for use, tagged by its tool.
#[derive(Debug, Clone, PartialEq, Eq)]
pub enum ShuruVersionManager {
    Node(NodeVersionManager),
    Python(PythonVersionManager),
}

/// Decides whether a version string names a version of one tool. The rules are
/// the implementor's; this crate only asks and passes the answer on.
pub trait VersionValidator {
    fn validate_version(version: &str) -> Result<(), Error>;
}

impl VersionedCommand {
    /// The manager of this tool for `version_info`.
    pub open spec fn spec_manager(self, version_info: VersionInfo) -> ShuruVersionManager {
        match self {
            VersionedCommand::Node => ShuruVersionManager::Node(
                NodeVersionManager { version_info },
            ),
            VersionedCommand::Python => ShuruVersionManager::Python(
                PythonVersionManager { version_info },
            ),
        }
    }

    /// What resolution gives once the tool's validator has answered.
    pub open spec fn spec_resolve(
        self,
        version_info: VersionInfo,
        validation: Result<(), Error>,
    ) -> Result<ShuruVersionManager, Error> {
        match validation {
            Ok(_) => Ok(self.spec_manager(version_info)),
            Err(error) => Err(error),
        }
    }

    /// Builds the manager of this tool for `version_info`.
    pub fn build_manager(&self, version_info: &VersionInfo) -> (manager: ShuruVersionManager)
        ensures
            manager == self.spec_manager(*version_info),
    {
        match self {
            VersionedCommand::Node => ShuruVersionManager::Node(
                NodeVersionManager::with_version_info(version_info),
            ),
            VersionedCommand::Python => ShuruVersionManager::Python(
                PythonVersionManager::with_version_info(version_info),
            ),
        }
    }

    /// Completes a resolution from the validator's answer: a rejection is
    /// handed on unchanged, an acceptance gives this tool's manager.
    pub fn resolve_validated(
        &self,
        version_info: &VersionInfo,
        validation: Result<(), Error>,
    ) -> (resolved: Result<ShuruVersionManager, Error>)
        ensures
            resolved == self.spec_resolve(*version_info, validation),
    {
        match validation {
            Ok(_) => Ok(self.build_manager(version_info)),
            Err(error) => Err(error),
        }
    }

    /// Resolves this tool and a pinned version into a version manager. The
    /// version string is put to the validator of this tool, `N` for the JS
    /// runtime and `P` for the Python runtime, and the answer decides: the
    /// outcome is `spec_resolve` of one of the validator's possible answers.
    pub fn get_version_manager<N: VersionValidator, P: VersionValidator>(
        &self,
        version_info: &VersionInfo,
    ) -> (resolved: Result<ShuruVersionManager, Error>)
        ensures
            exists|validation: Result<(), Error>|
                resolved == #[trigger] self.spec_resolve(*version_info, validation),
            resolved matches Ok(manager) ==> manager == self.spec_manager(*version_info),
    {
        let version = version_info.get_version();
        let validation = match self {
            VersionedCommand::Node => N::validate_version(version),
            VersionedCommand::Python => P::validate_version(version),
        };
        self.resolve_validated(version_info, validation)
    }
}

} // verus!
