//! The `versions` section of a manifest: the checked mapping from tools to
//! pinned versions, and the step that seals raw entries into it.

use crate::error::{VersionsError, VersionsIssue};
use crate::version_manager::{VersionInfo, VersionedCommand};
use vstd::prelude::*;

verus! {

/// The pinned versions of a manifest: at most one per tool.
#[derive(Debug, Clone, PartialEq, Eq)]
pub struct Versions {
    node: Option<VersionInfo>,
    python: Option<VersionInfo>,
}

impl View for Versions {
    type V = Map<VersionedCommand, VersionInfo>;

    closed spec fn view(&self) -> Map<VersionedCommand, VersionInfo> {
        Map::new(
            |command: VersionedCommand| self.slot(command) is Some,
            |command: VersionedCommand| self.slot(command).unwrap(),
        )
    }
}

impl Versions {
    spec fn slot(self, command: VersionedCommand) -> Option<VersionInfo> {
        match command {
            VersionedCommand::Node => self.node,
            VersionedCommand::Python => self.python,
        }
    }

    /// The mapping without entries.
    pub fn new() -> (versions: Self)
        ensures
            versions@ == Map::<VersionedCommand, VersionInfo>::empty(),
    {
        let versions = Versions { node: None, python: None };
        assert(versions@ =~= Map::<VersionedCommand, VersionInfo>::empty());
        versions
    }

    /// Pins `command` to `version_info`, and hands back what it was pinned to
    /// before.
    pub fn insert(&mut self, command: VersionedCommand, version_info: VersionInfo) -> (previous:
        Option<VersionInfo>)
        ensures
            final(self)@ == old(self)@.insert(command, version_info),
            previous is Some <==> old(self)@.contains_key(command),
            previous matches Some(info) ==> info == old(self)@[command],
    {
        let mut entry = Some(version_info);
        match command {
            VersionedCommand::Node => {
                std::mem::swap(&mut self.node, &mut entry);
            },
            VersionedCommand::Python => {
                std::mem::swap(&mut self.python, &mut entry);
            },
        }
        assert(self@ =~= old(self)@.insert(command, version_info));
        entry
    }

    /// The version that `command` is pinned to, if any.
    pub fn get(&self, command: VersionedCommand) -> (found: Option<&VersionInfo>)
        ensures
            found is Some <==> self@.contains_key(command),
            found matches Some(info) ==> *info == self@[command],
    {
        match command {
            VersionedCommand::Node => self.node.as_ref(),
            VersionedCommand::Python => self.python.as_ref(),
        }
    }

    pub fn contains_key(&self, command: VersionedCommand) -> (present: bool)
        ensures
            present == self@.contains_key(command),
    {
        self.get(command).is_some()
    }

    /// The number of pinned tools.
    pub fn len(&self) -> (count: usize)
        ensures
            self@.dom().finite(),
            count == self@.len(),
    {
        let ghost node_keys: Set<VersionedCommand> = if self.node is Some {
            set![VersionedCommand::Node]
        } else {
            set![]
        };
        let ghost keys: Set<VersionedCommand> = if self.python is Some {
            node_keys.insert(VersionedCommand::Python)
        } else {
            node_keys
        };
        assert(self@.dom() =~= keys);
        let mut count: usize = 0;
        if self.node.is_some() {
            count = count + 1;
        }
        if self.python.is_some() {
            count = count + 1;
        }
        count
    }

    pub fn is_empty(&self) -> (empty: bool)
        ensures
            empty == (self@ == Map::<VersionedCommand, VersionInfo>::empty()),
    {
        let empty = self.node.is_none() && self.python.is_none();
        assert(empty ==> self@ =~= Map::<VersionedCommand, VersionInfo>::empty());
        assert(!empty ==> self@.contains_key(VersionedCommand::Node) || self@.contains_key(
            VersionedCommand::Python,
        ));
        empty
    }
}

/// What is wrong with one raw entry, if anything. An empty version is
/// reported before an unknown key.
pub open spec fn entry_issue(key: Seq<char>, version_info: VersionInfo) -> Option<VersionsIssue> {
    if version_info.spec_version().len() == 0 {
        Some(VersionsIssue::MissingVersion(key))
    } else if VersionedCommand::spec_from_command_name(key) is None {
        Some(VersionsIssue::UnknownCommand(key))
    } else {
        None
    }
}

/// The mapping that a sequence of raw entries stands for: the entries are
/// taken in order, the first one with an issue rejects the whole sequence, and
/// of two entries for one tool the later one stays.
pub open spec fn spec_deserialize_versions(raw: Seq<(String, VersionInfo)>) -> Result<
    Map<VersionedCommand, VersionInfo>,
    VersionsIssue,
>
    decreases raw.len(),
{
    if raw.len() == 0 {
        Ok(Map::empty())
    } else {
        let (key, version_info) = raw.last();
        match spec_deserialize_versions(raw.drop_last()) {
            Err(issue) => Err(issue),
            Ok(earlier) => match entry_issue(key@, version_info) {
                Some(issue) => Err(issue),
                None => Ok(
                    earlier.insert(
                        VersionedCommand::spec_from_command_name(key@).unwrap(),
                        version_info,
                    ),
                ),
            },
        }
    }
}

/// Checks one raw entry and names the tool it is for.
pub fn check_entry(key: &String, version_info: &VersionInfo) -> (checked: Result<
    VersionedCommand,
    VersionsError,
>)
    ensures
        match checked {
            Ok(command) => entry_issue(key@, *version_info) is None
                && VersionedCommand::spec_from_command_name(key@) == Some(command),
            Err(error) => entry_issue(key@, *version_info) == Some(error@),
        },
{
    if version_info.get_version().is_empty() {
        return Err(VersionsError::MissingVersion(key.clone()));
    }
    match VersionedCommand::from_command_name(key.as_str()) {
        Some(command) => Ok(command),
        None => Err(VersionsError::UnknownCommand(key.clone())),
    }
}

/// Seals the raw entries of a `versions` section into a checked mapping, or
/// rejects the section as a whole with the issue of its first bad entry.
pub fn deserialize_versions(raw: Vec<(String, VersionInfo)>) -> (sealed: Result<
    Versions,
    VersionsError,
>)
    ensures
        match sealed {
            Ok(versions) => spec_deserialize_versions(raw@) == Ok::<
                Map<VersionedCommand, VersionInfo>,
                VersionsIssue,
            >(versions@),
            Err(error) => spec_deserialize_versions(raw@) == Err::<
                Map<VersionedCommand, VersionInfo>,
                VersionsIssue,
            >(error@),
        },
        sealed matches Ok(versions) ==> forall|command: VersionedCommand| #[trigger]
            versions@.contains_key(command) ==> versions@[command].spec_version().len() > 0,
{
    let mut result = Versions::new();
    let mut index: usize = 0;
    while index < raw.len()
        invariant
            index <= raw.len(),
            spec_deserialize_versions(raw@.take(index as int)) == Ok::<
                Map<VersionedCommand, VersionInfo>,
                VersionsIssue,
            >(result@),
        decreases raw.len() - index,
    {
        let ghost upto = raw@.take(index + 1);
        assert(upto.drop_last() == raw@.take(index as int));
        assert(upto.last() == raw@[index as int]);
        let entry = &raw[index];
        match check_entry(&entry.0, &entry.1) {
            Err(error) => {
                proof {
                    lemma_rejected_prefix(raw@, index + 1);
                }
                return Err(error);
            },
            Ok(command) => {
                result.insert(command, entry.1.clone());
            },
        }
        index = index + 1;
    }
    proof {
        assert(raw@.take(index as int) == raw@);
        lemma_accepted_contents(raw@, result@);
    }
    Ok(result)
}

/// Once a prefix of the entries is rejected, the whole sequence is rejected
/// with the same issue.
pub proof fn lemma_rejected_prefix(raw: Seq<(String, VersionInfo)>, length: int)
    requires
        0 <= length <= raw.len(),
        spec_deserialize_versions(raw.take(length)) is Err,
    ensures
        spec_deserialize_versions(raw) == spec_deserialize_versions(raw.take(length)),
    decreases raw.len() - length,
{
    if length < raw.len() {
        assert(raw.take(length + 1).drop_last() == raw.take(length));
        lemma_rejected_prefix(raw, length + 1);
    } else {
        assert(raw.take(length) == raw);
    }
}

/// Whether the entry at `index` passes the check on its own.
pub open spec fn entry_passes(raw: Seq<(String, VersionInfo)>, index: int) -> bool {
    entry_issue(raw[index].0@, raw[index].1) is None
}

/// A section is accepted exactly when every entry passes; if one does not,
/// the section is rejected with the issue of the first that does not.
pub proof fn lemma_first_bad_entry_decides(raw: Seq<(String, VersionInfo)>)
    ensures
        spec_deserialize_versions(raw) is Ok <==> forall|i: int|
            0 <= i < raw.len() ==> entry_passes(raw, i),
        forall|i: int|
            0 <= i < raw.len() && !entry_passes(raw, i) && (forall|j: int|
                0 <= j < i ==> entry_passes(raw, j)) ==> spec_deserialize_versions(raw) == Err::<
                Map<VersionedCommand, VersionInfo>,
                VersionsIssue,
            >(#[trigger] entry_issue(raw[i].0@, raw[i].1).unwrap()),
    decreases raw.len(),
{
    if raw.len() > 0 {
        let earlier = raw.drop_last();
        let last = raw.len() - 1;
        lemma_first_bad_entry_decides(earlier);
        assert forall|i: int| 0 <= i < earlier.len() implies entry_passes(earlier, i)
            == entry_passes(raw, i) by {
            assert(earlier[i] == raw[i]);
        }
        if spec_deserialize_versions(earlier) is Ok {
            assert(spec_deserialize_versions(raw) is Ok <==> entry_passes(raw, last));
            assert forall|i: int| 0 <= i < last implies entry_passes(raw, i) by {
                assert(entry_passes(earlier, i));
            }
            assert forall|i: int|
                0 <= i < raw.len() && !entry_passes(raw, i) && (forall|j: int|
                    0 <= j < i ==> entry_passes(raw, j)) implies spec_deserialize_versions(raw)
                == Err::<Map<VersionedCommand, VersionInfo>, VersionsIssue>(
                #[trigger] entry_issue(raw[i].0@, raw[i].1).unwrap(),
            ) by {
                assert(i == last);
            }
        } else {
            let bad = choose|i: int| 0 <= i < earlier.len() && !entry_passes(earlier, i);
            assert(!entry_passes(raw, bad));
            assert forall|i: int|
                0 <= i < raw.len() && !entry_passes(raw, i) && (forall|j: int|
                    0 <= j < i ==> entry_passes(raw, j)) implies spec_deserialize_versions(raw)
                == Err::<Map<VersionedCommand, VersionInfo>, VersionsIssue>(
                #[trigger] entry_issue(raw[i].0@, raw[i].1).unwrap(),
            ) by {
                assert(i <= bad);
                assert(forall|j: int| 0 <= j < i ==> entry_passes(earlier, j));
                assert(earlier[i] == raw[i]);
            }
        }
    }
}

/// An entry whose version string is empty rejects the section, whatever its
/// key. If it is the first bad entry, the error is the missing-version error
/// with that key.
pub proof fn lemma_empty_version_rejected(raw: Seq<(String, VersionInfo)>, index: int)
    requires
        0 <= index < raw.len(),
        raw[index].1.spec_version().len() == 0,
    ensures
        spec_deserialize_versions(raw) is Err,
        (forall|j: int| 0 <= j < index ==> entry_passes(raw, j)) ==> spec_deserialize_versions(raw)
            == Err::<Map<VersionedCommand, VersionInfo>, VersionsIssue>(
            VersionsIssue::MissingVersion(raw[index].0@),
        ),
{
    lemma_first_bad_entry_decides(raw);
    assert(!entry_passes(raw, index));
    assert(entry_issue(raw[index].0@, raw[index].1).unwrap() == VersionsIssue::MissingVersion(
        raw[index].0@,
    ));
}

/// An entry whose key names no tool rejects the section. If it is the first
/// bad entry and its version string is not empty, the error is the
/// unknown-command error with that key.
pub proof fn lemma_unknown_key_rejected(raw: Seq<(String, VersionInfo)>, index: int)
    requires
        0 <= index < raw.len(),
        raw[index].0@ != VersionedCommand::Node.spec_command_name(),
        raw[index].0@ != VersionedCommand::Python.spec_command_name(),
    ensures
        spec_deserialize_versions(raw) is Err,
        (forall|j: int| 0 <= j < index ==> entry_passes(raw, j)) && raw[index].1.spec_version().len()
            > 0 ==> spec_deserialize_versions(raw) == Err::<
            Map<VersionedCommand, VersionInfo>,
            VersionsIssue,
        >(VersionsIssue::UnknownCommand(raw[index].0@)),
{
    lemma_first_bad_entry_decides(raw);
    assert(!entry_passes(raw, index));
    if raw[index].1.spec_version().len() > 0 {
        assert(entry_issue(raw[index].0@, raw[index].1).unwrap() == VersionsIssue::UnknownCommand(
            raw[index].0@,
        ));
    }
}

/// A single entry under a tool's name with a version that is not empty is
/// accepted, and the mapping then holds that entry and no other.
pub proof fn lemma_known_entry_accepted(
    key: String,
    version_info: VersionInfo,
    command: VersionedCommand,
)
    requires
        key@ == command.spec_command_name(),
        version_info.spec_version().len() > 0,
    ensures
        spec_deserialize_versions(seq![(key, version_info)]) == Ok::<
            Map<VersionedCommand, VersionInfo>,
            VersionsIssue,
        >(map![command => version_info]),
        map![command => version_info].dom() == set![command],
        map![command => version_info].len() == 1,
{
    let raw = seq![(key, version_info)];
    crate::version_manager::lemma_command_name_round_trip(command, key@);
    assert(raw.drop_last() == Seq::<(String, VersionInfo)>::empty());
    assert(raw.last() == (key, version_info));
    assert(spec_deserialize_versions(raw.drop_last()) == Ok::<
        Map<VersionedCommand, VersionInfo>,
        VersionsIssue,
    >(Map::empty()));
    assert(map![command => version_info].dom() =~= set![command]);
}

/// Whether the entry at `index` is under the name of `command`.
pub open spec fn entry_names(
    raw: Seq<(String, VersionInfo)>,
    index: int,
    command: VersionedCommand,
) -> bool {
    raw[index].0@ == command.spec_command_name()
}

/// What an accepted section holds: a tool is pinned exactly when some entry
/// is under its name, it is pinned to the last such entry, and no pinned
/// version string is empty.
pub proof fn lemma_accepted_contents(
    raw: Seq<(String, VersionInfo)>,
    versions: Map<VersionedCommand, VersionInfo>,
)
    requires
        spec_deserialize_versions(raw) == Ok::<Map<VersionedCommand, VersionInfo>, VersionsIssue>(
            versions,
        ),
    ensures
        versions.dom().finite(),
        forall|command: VersionedCommand| #[trigger]
            versions.contains_key(command) <==> exists|i: int|
                0 <= i < raw.len() && entry_names(raw, i, command),
        forall|command: VersionedCommand, i: int|
            0 <= i < raw.len() && #[trigger] entry_names(raw, i, command) && (forall|j: int|
                i < j < raw.len() ==> !entry_names(raw, j, command)) ==> versions.contains_key(
                command,
            ) && versions[command] == raw[i].1,
        forall|command: VersionedCommand| #[trigger]
            versions.contains_key(command) ==> versions[command].spec_version().len() > 0,
    decreases raw.len(),
{
    if raw.len() > 0 {
        let earlier = raw.drop_last();
        let last = raw.len() - 1;
        let before = spec_deserialize_versions(earlier)->Ok_0;
        let added = VersionedCommand::spec_from_command_name(raw[last].0@).unwrap();
        lemma_accepted_contents(earlier, before);
        crate::version_manager::lemma_command_name_round_trip(added, raw[last].0@);
        assert(versions == before.insert(added, raw[last].1));
        assert(entry_names(raw, last, added));
        assert forall|command: VersionedCommand, i: int| 0 <= i < earlier.len() implies entry_names(
            earlier,
            i,
            command,
        ) == entry_names(raw, i, command) by {
            assert(earlier[i] == raw[i]);
        }
        assert forall|command: VersionedCommand| #[trigger]
            versions.contains_key(command) <==> exists|i: int|
                0 <= i < raw.len() && entry_names(raw, i, command) by {
            crate::version_manager::lemma_command_name_round_trip(command, raw[last].0@);
            if versions.contains_key(command) && command != added {
                assert(before.contains_key(command));
                let i = choose|i: int| 0 <= i < earlier.len() && entry_names(earlier, i, command);
                assert(entry_names(raw, i, command));
            }
            if exists|i: int| 0 <= i < raw.len() && entry_names(raw, i, command) {
                let i = choose|i: int| 0 <= i < raw.len() && entry_names(raw, i, command);
                if i < last {
                    assert(entry_names(earlier, i, command));
                }
            }
        }
        assert forall|command: VersionedCommand, i: int|
            0 <= i < raw.len() && #[trigger] entry_names(raw, i, command) && (forall|j: int|
                i < j < raw.len() ==> !entry_names(raw, j, command)) implies versions.contains_key(
            command,
        ) && versions[command] == raw[i].1 by {
            crate::version_manager::lemma_command_name_round_trip(command, raw[last].0@);
            if i < last {
                assert(entry_names(earlier, i, command));
                assert(!entry_names(raw, last, command));
                assert forall|j: int| i < j < earlier.len() implies !entry_names(
                    earlier,
                    j,
                    command,
                ) by {
                    assert(!entry_names(raw, j, command));
                }
            }
        }
    }
}

} // verus!
