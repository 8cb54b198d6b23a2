//! The authoritative list of quick commands and categories, with the use
//! counts that are bumped optimistically and rolled back on a failed save.

use vstd::prelude::*;

use crate::quick_command::{QuickCommand, QuickCommandCategory};
use crate::text::concat_text;

verus! {

/// Quick commands and their categories.
pub struct CommandCatalogState {
    pub commands: Vec<QuickCommand>,
    pub categories: Vec<QuickCommandCategory>,
}

/// `c` with its use count set to `n`.
pub open spec fn with_use_count(c: QuickCommand, n: u32) -> QuickCommand {
    QuickCommand { use_count: Some(n), ..c }
}

/// The use count of `c`, a missing one read as zero.
pub open spec fn spec_use_count(c: QuickCommand) -> u32 {
    match c.use_count {
        Some(n) => n,
        None => 0,
    }
}

/// `k` is the first command of `cmds` whose id is `id`.
pub open spec fn is_first_with_id(cmds: Seq<QuickCommand>, id: Seq<char>, k: int) -> bool {
    &&& 0 <= k < cmds.len()
    &&& cmds[k].id@ == id
    &&& forall|j: int| 0 <= j < k ==> (#[trigger] cmds[j]).id@ != id
}

/// `after` is `before` with the use count of the first command named `id`
/// replaced by `f` of it; with no such command, nothing changes.
pub open spec fn spec_updates_first_use_count(
    before: Seq<QuickCommand>,
    after: Seq<QuickCommand>,
    id: Seq<char>,
    f: spec_fn(u32) -> u32,
) -> bool {
    if exists|k: int| is_first_with_id(before, id, k) {
        exists|k: int|
            is_first_with_id(before, id, k) && after == before.update(
                k,
                with_use_count(before[k], f(spec_use_count(before[k]))),
            )
    } else {
        after == before
    }
}

/// A count raised by one, staying at `u32::MAX`.
pub open spec fn saturating_inc(n: u32) -> u32 {
    if n == u32::MAX {
        n
    } else {
        (n + 1) as u32
    }
}

/// A count lowered by one, staying at zero.
pub open spec fn saturating_dec(n: u32) -> u32 {
    if n == 0 {
        n
    } else {
        (n - 1) as u32
    }
}

/// Rolling back an increment restores the count: the command keeps its use
/// count, a missing one becoming zero (unless the count was stuck at
/// `u32::MAX`, where the increment did nothing and the rollback lowers it).
pub proof fn lemma_rollback_undoes_increment(
    before: Seq<QuickCommand>,
    mid: Seq<QuickCommand>,
    after: Seq<QuickCommand>,
    id: Seq<char>,
)
    requires
        spec_updates_first_use_count(before, mid, id, |n: u32| saturating_inc(n)),
        spec_updates_first_use_count(mid, after, id, |n: u32| saturating_dec(n)),
        forall|k: int| is_first_with_id(before, id, k) ==> spec_use_count(before[k]) < u32::MAX,
    ensures
        spec_updates_first_use_count(before, after, id, |n: u32| n),
{
    if exists|k: int| is_first_with_id(before, id, k) {
        let k = choose|k: int| is_first_with_id(before, id, k) && mid == before.update(
            k,
            with_use_count(before[k], saturating_inc(spec_use_count(before[k]))),
        );
        assert(is_first_with_id(mid, id, k)) by {
            assert forall|j: int| 0 <= j < k implies (#[trigger] mid[j]).id@ != id by {
                assert(mid[j] == before[j]);
            }
        }
        let k2 = choose|k2: int| is_first_with_id(mid, id, k2) && after == mid.update(
            k2,
            with_use_count(mid[k2], saturating_dec(spec_use_count(mid[k2]))),
        );
        assert(k2 == k) by {
            if k2 < k {
                assert(mid[k2] == before[k2]);
            }
            if k < k2 {
                assert(mid[k].id@ == id);
            }
        }
        assert(after =~= before.update(
            k,
            with_use_count(before[k], spec_use_count(before[k])),
        ));
    } else {
        assert(!exists|k: int| is_first_with_id(mid, id, k)) by {
            if exists|k: int| is_first_with_id(mid, id, k) {
                let k = choose|k: int| is_first_with_id(mid, id, k);
                assert(is_first_with_id(before, id, k));
            }
        }
    }
}

impl CommandCatalogState {
    /// A catalog of the given commands and categories.
    pub fn new(commands: Vec<QuickCommand>, categories: Vec<QuickCommandCategory>) -> (r: Self)
        ensures
            r.commands == commands,
            r.categories == categories,
    {
        CommandCatalogState { commands, categories }
    }

    /// Replaces both lists at once.
    pub fn replace(&mut self, commands: Vec<QuickCommand>, categories: Vec<QuickCommandCategory>)
        ensures
            final(self).commands == commands,
            final(self).categories == categories,
    {
        self.commands = commands;
        self.categories = categories;
    }

    /// The index of the first command with id `command_id`, if any.
    fn find_command(&self, command_id: &str) -> (r: Option<usize>)
        ensures
            match r {
                Some(k) => is_first_with_id(self.commands@, command_id@, k as int),
                None => forall|j: int|
                    0 <= j < self.commands@.len() ==> (#[trigger] self.commands@[j]).id@
                        != command_id@,
            },
    {
        let mut i: usize = 0;
        while i < self.commands.len()
            invariant
                i <= self.commands@.len(),
                forall|j: int| 0 <= j < i ==> (#[trigger] self.commands@[j]).id@ != command_id@,
            decreases self.commands@.len() - i,
        {
            if crate::text::str_eq(self.commands[i].id.as_str(), command_id) {
                return Some(i);
            }
            i += 1;
        }
        None
    }

    /// Sets the use count of the command at `k` to `n`.
    fn set_use_count(&mut self, k: usize, n: u32)
        requires
            k < old(self).commands@.len(),
        ensures
            final(self).commands@ == old(self).commands@.update(
                k as int,
                with_use_count(old(self).commands@[k as int], n),
            ),
            final(self).categories == old(self).categories,
    {
        let mut c = self.commands.remove(k);
        c.use_count = Some(n);
        self.commands.insert(k, c);
        assert(self.commands@ =~= old(self).commands@.update(
            k as int,
            with_use_count(old(self).commands@[k as int], n),
        ));
    }

    /// Counts one more use of the first command with id `command_id`; a
    /// missing count starts at zero and the count stops at `u32::MAX`.
    pub fn increment_use_count(&mut self, command_id: &str)
        ensures
            spec_updates_first_use_count(
                old(self).commands@,
                final(self).commands@,
                command_id@,
                |n: u32| saturating_inc(n),
            ),
            final(self).categories == old(self).categories,
    {
        match self.find_command(command_id) {
            Some(k) => {
                let n = match self.commands[k].use_count {
                    Some(n) => n,
                    None => 0,
                };
                self.set_use_count(k, n.saturating_add(1));
            },
            None => {},
        }
    }

    /// Takes back one use of the first command with id `command_id`; a
    /// missing count reads as zero and the count stops at zero.
    pub fn rollback_use_count(&mut self, command_id: &str)
        ensures
            spec_updates_first_use_count(
                old(self).commands@,
                final(self).commands@,
                command_id@,
                |n: u32| saturating_dec(n),
            ),
            final(self).categories == old(self).categories,
    {
        match self.find_command(command_id) {
            Some(k) => {
                let n = match self.commands[k].use_count {
                    Some(n) => n,
                    None => 0,
                };
                self.set_use_count(k, n.saturating_sub(1));
            },
            None => {},
        }
    }
}

/// What the store answered to a queued save; `H` is a history entry.
pub enum CommandPersistenceResult<H> {
    /// The command history after the append, or why it failed.
    History(Result<Vec<H>, String>),
    /// Whether saving a command's use count worked.
    QuickCommandUseCount { command_id: String, result: Result<(), String> },
}

/// The error text of a failed save: what failed, then why.
pub open spec fn spec_save_error(what: Seq<char>, error: Seq<char>) -> Seq<char> {
    what + error
}

/// Takes in what the store answered to a queued save: a saved history
/// replaces `history`; a failed use-count save takes the optimistic count
/// back. A failure comes back as its message.
pub fn apply_persistence_result<H>(
    catalog: &mut CommandCatalogState,
    history: &mut Vec<H>,
    event: CommandPersistenceResult<H>,
) -> (r: Result<(), String>)
    ensures
        match event {
            CommandPersistenceResult::History(Ok(h)) => {
                &&& r is Ok
                &&& final(history)@ == h@
                &&& *final(catalog) == *old(catalog)
            },
            CommandPersistenceResult::History(Err(e)) => {
                &&& r matches Err(m) && m@ == spec_save_error("command history save failed: "@, e@)
                &&& final(history)@ == old(history)@
                &&& *final(catalog) == *old(catalog)
            },
            CommandPersistenceResult::QuickCommandUseCount { command_id, result: Ok(_) } => {
                &&& r is Ok
                &&& final(history)@ == old(history)@
                &&& *final(catalog) == *old(catalog)
            },
            CommandPersistenceResult::QuickCommandUseCount { command_id, result: Err(e) } => {
                &&& r matches Err(m) && m@ == spec_save_error(
                    "quick command use count update failed: "@,
                    e@,
                )
                &&& final(history)@ == old(history)@
                &&& spec_updates_first_use_count(
                    old(catalog).commands@,
                    final(catalog).commands@,
                    command_id@,
                    |n: u32| saturating_dec(n),
                )
                &&& final(catalog).categories == old(catalog).categories
            },
        },
{
    match event {
        CommandPersistenceResult::History(Ok(h)) => {
            *history = h;
            Ok(())
        },
        CommandPersistenceResult::History(Err(e)) => Err(
            concat_text("command history save failed: ", e.as_str()),
        ),
        CommandPersistenceResult::QuickCommandUseCount { command_id, result } => match result {
            Ok(()) => Ok(()),
            Err(e) => {
                catalog.rollback_use_count(command_id.as_str());
                Err(concat_text("quick command use count update failed: ", e.as_str()))
            },
        },
    }
}

/// Counts a use of `command_id` once its save is queued (`queued` says
/// whether the save could be queued); whether it was. Nothing changes when
/// it could not be.
pub fn queue_quick_command_use_count(catalog: &mut CommandCatalogState, command_id: &str, queued: bool) -> (r:
    bool)
    ensures
        r == queued,
        queued ==> spec_updates_first_use_count(
            old(catalog).commands@,
            final(catalog).commands@,
            command_id@,
            |n: u32| saturating_inc(n),
        ) && final(catalog).categories == old(catalog).categories,
        !queued ==> *final(catalog) == *old(catalog),
{
    if !queued {
        return false;
    }
    catalog.increment_use_count(command_id);
    true
}

} // verus!
