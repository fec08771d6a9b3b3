//! The manifest: named tasks and pinned tool versions, and the rules a task's
//! declaration has to meet.

use crate::error::{ConfigIssue, ConfigValidationError, Error};
use crate::versions::Versions;
use vstd::prelude::*;

verus! {

/// One task's declaration. The task's name is the key it is stored under.
#[derive(Debug, Clone, PartialEq, Eq)]
pub struct TaskConfig {
    /// The shell command of the task; never empty in a valid task.
    pub command: String,
    /// The working directory; absent, or not empty, in a valid task.
    pub dir: Option<String>,
    /// Whether this is the task to run when none is named.
    pub default: Option<bool>,
}

impl TaskConfig {
    /// The rule on the command: it is not the empty string.
    pub open spec fn command_ok(self) -> bool {
        self.command@.len() > 0
    }

    /// The rule on the working directory: where one is given, it is not the
    /// empty string.
    pub open spec fn dir_ok(self) -> bool {
        match self.dir {
            Some(dir) => dir@.len() > 0,
            None => true,
        }
    }

    /// The outcome of validation under `task_name`: the command is
    /// judged before the directory, and the first failure is the outcome.
    pub open spec fn spec_validate(self, task_name: Seq<char>) -> Result<(), ConfigIssue> {
        if !self.command_ok() {
            Err(ConfigIssue::EmptyCommand(task_name))
        } else if !self.dir_ok() {
            Err(ConfigIssue::EmptyDir(task_name))
        } else {
            Ok(())
        }
    }

    /// Validates the declaration under the name of its task: the command
    /// first, then the working directory.
    pub fn validate(&self, task_name: &str) -> (outcome: Result<(), ConfigValidationError>)
        ensures
            match outcome {
                Ok(_) => self.spec_validate(task_name@) is Ok,
                Err(error) => self.spec_validate(task_name@) == Err::<(), ConfigIssue>(error@),
            },
            self.command_ok() && self.dir_ok() ==> outcome is Ok,
            !self.command_ok() ==> (outcome matches Err(error) && error@
                == ConfigIssue::EmptyCommand(task_name@)),
            self.command_ok() && !self.dir_ok() ==> (outcome matches Err(error) && error@
                == ConfigIssue::EmptyDir(task_name@)),
    {
        match self.validate_command(task_name) {
            Err(error) => Err(error),
            Ok(_) => self.validate_dir(task_name),
        }
    }

    fn validate_command(&self, task_name: &str) -> (outcome: Result<(), ConfigValidationError>)
        ensures
            outcome is Ok <==> self.command_ok(),
            outcome matches Err(error) ==> error@ == ConfigIssue::EmptyCommand(task_name@),
    {
        if self.command.as_str().is_empty() {
            return Err(ConfigValidationError::EmptyCommandError(task_name.to_owned()));
        }
        Ok(())
    }

    fn validate_dir(&self, task_name: &str) -> (outcome: Result<(), ConfigValidationError>)
        ensures
            outcome is Ok <==> self.dir_ok(),
            outcome matches Err(error) ==> error@ == ConfigIssue::EmptyDir(task_name@),
    {
        if let Some(dir) = &self.dir {
            if dir.as_str().is_empty() {
                return Err(ConfigValidationError::EmptyDirError(task_name.to_owned()));
            }
        }
        Ok(())
    }
}

/// The manifest: tasks by name, in the order they were added, and the pinned
/// versions.
#[derive(Debug, Clone, PartialEq, Eq)]
pub struct Config {
    pub tasks: Vec<(String, TaskConfig)>,
    pub versions: Versions,
}

/// Whether the task at `index` meets the rules under its own name.
pub open spec fn task_passes(tasks: Seq<(String, TaskConfig)>, index: int) -> bool {
    tasks[index].1.spec_validate(tasks[index].0@) is Ok
}

/// Whether the task at `index` is the first that does not meet the rules.
pub open spec fn first_failing_task(tasks: Seq<(String, TaskConfig)>, index: int) -> bool {
    &&& 0 <= index < tasks.len()
    &&& !task_passes(tasks, index)
    &&& forall|j: int| 0 <= j < index ==> task_passes(tasks, j)
}

impl Config {
    /// No two tasks have the same name.
    pub open spec fn has_unique_task_names(self) -> bool {
        forall|i: int, j: int|
            0 <= i < j < self.tasks@.len() ==> self.tasks@[i].0@ != self.tasks@[j].0@
    }

    /// A manifest without tasks.
    pub fn new(versions: Versions) -> (config: Self)
        ensures
            config.tasks@.len() == 0,
            config.versions == versions,
            config.has_unique_task_names(),
    {
        Config { tasks: Vec::new(), versions }
    }

    /// Declares `task` under `name`. A task already declared under that name
    /// is replaced in its place and handed back; otherwise the task is added
    /// after the others.
    pub fn insert_task(&mut self, name: String, task: TaskConfig) -> (previous: Option<TaskConfig>)
        requires
            old(self).has_unique_task_names(),
        ensures
            final(self).has_unique_task_names(),
            final(self).versions == old(self).versions,
            match previous {
                Some(replaced) => exists|i: int|
                    0 <= i < old(self).tasks@.len() && #[trigger] old(self).tasks@[i].0@ == name@
                        && old(self).tasks@[i].1 == replaced && final(self).tasks@ == old(
                        self,
                    ).tasks@.update(i, (name, task)),
                None => (forall|i: int|
                    0 <= i < old(self).tasks@.len() ==> #[trigger] old(self).tasks@[i].0@ != name@)
                    && final(self).tasks@ == old(self).tasks@.push((name, task)),
            },
    {
        let mut index: usize = 0;
        while index < self.tasks.len()
            invariant
                *self == *old(self),
                old(self).has_unique_task_names(),
                index <= self.tasks@.len(),
                forall|i: int| 0 <= i < index ==> #[trigger] self.tasks@[i].0@ != name@,
            decreases self.tasks@.len() - index,
        {
            if self.tasks[index].0 == name {
                let replaced = self.tasks.remove(index);
                self.tasks.insert(index, (name, task));
                assert(self.tasks@ =~= old(self).tasks@.update(index as int, (name, task)));
                assert(old(self).tasks@[index as int].0@ == name@);
                assert forall|i: int, j: int| 0 <= i < j < self.tasks@.len() implies self.tasks@[i].0@
                    != self.tasks@[j].0@ by {
                    assert(old(self).tasks@[i].0@ != old(self).tasks@[j].0@);
                }
                return Some(replaced.1);
            }
            index = index + 1;
        }
        self.tasks.push((name, task));
        None
    }

    /// Validates every task under its name, in order, and stops at the first
    /// that fails.
    pub fn validate_tasks(&self) -> (outcome: Result<(), Error>)
        ensures
            match outcome {
                Ok(_) => forall|i: int| 0 <= i < self.tasks@.len() ==> task_passes(self.tasks@, i),
                Err(error) => error matches Error::ConfigValidationError(task_error) && exists|
                    i: int,
                | #[trigger]
                    first_failing_task(self.tasks@, i) && self.tasks@[i].1.spec_validate(
                        self.tasks@[i].0@,
                    ) == Err::<(), ConfigIssue>(task_error@),
            },
    {
        let mut index: usize = 0;
        while index < self.tasks.len()
            invariant
                index <= self.tasks@.len(),
                forall|i: int| 0 <= i < index ==> task_passes(self.tasks@, i),
            decreases self.tasks@.len() - index,
        {
            let entry = &self.tasks[index];
            match entry.1.validate(entry.0.as_str()) {
                Err(task_error) => {
                    assert(first_failing_task(self.tasks@, index as int));
                    return Err(Error::from(task_error));
                },
                Ok(_) => {},
            }
            index = index + 1;
        }
        Ok(())
    }
}

} // verus!
