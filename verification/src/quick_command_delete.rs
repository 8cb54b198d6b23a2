//! Deleting quick commands and categories from the stored catalog, and
//! counting what a category holds before it is deleted.

use vstd::prelude::*;

use crate::quick_command::{QuickCommand, QuickCommandCategory};
use crate::text::str_eq;

verus! {

/// Whether `c` is the command `id`.
pub open spec fn spec_is_command(c: QuickCommand, id: Seq<char>) -> bool {
    c.id@ == id
}

/// Whether `c` is filed directly under the category `id`.
pub open spec fn spec_in_category(c: QuickCommand, id: Seq<char>) -> bool {
    c.category_id matches Some(cat) && cat@ == id
}

/// `cmds` without the command `id`.
pub open spec fn spec_without_command(cmds: Seq<QuickCommand>, id: Seq<char>) -> Seq<QuickCommand>
    decreases cmds.len(),
{
    if cmds.len() == 0 {
        seq![]
    } else {
        let rest = spec_without_command(cmds.drop_last(), id);
        if spec_is_command(cmds.last(), id) {
            rest
        } else {
            rest.push(cmds.last())
        }
    }
}

/// `cmds` without those filed directly under the category `id`.
pub open spec fn spec_outside_category(cmds: Seq<QuickCommand>, id: Seq<char>) -> Seq<QuickCommand>
    decreases cmds.len(),
{
    if cmds.len() == 0 {
        seq![]
    } else {
        let rest = spec_outside_category(cmds.drop_last(), id);
        if spec_in_category(cmds.last(), id) {
            rest
        } else {
            rest.push(cmds.last())
        }
    }
}

/// `cats` without the category `id`.
pub open spec fn spec_without_category(cats: Seq<QuickCommandCategory>, id: Seq<char>) -> Seq<
    QuickCommandCategory,
>
    decreases cats.len(),
{
    if cats.len() == 0 {
        seq![]
    } else {
        let rest = spec_without_category(cats.drop_last(), id);
        if cats.last().id@ == id {
            rest
        } else {
            rest.push(cats.last())
        }
    }
}

/// How many of `cmds` are filed directly under the category `id`.
pub open spec fn spec_count_in_category(cmds: Seq<QuickCommand>, id: Seq<char>) -> nat
    decreases cmds.len(),
{
    if cmds.len() == 0 {
        0
    } else {
        spec_count_in_category(cmds.drop_last(), id) + if spec_in_category(cmds.last(), id) {
            1nat
        } else {
            0nat
        }
    }
}

/// Whether `c` is filed directly under `id`.
fn in_category(c: &QuickCommand, id: &str) -> (r: bool)
    ensures
        r == spec_in_category(*c, id@),
{
    match &c.category_id {
        Some(cat) => str_eq(cat.as_str(), id),
        None => false,
    }
}

/// Dropping the unwanted commands leaves at most as many, and exactly as
/// many only when none was unwanted.
proof fn lemma_without_command_len(cmds: Seq<QuickCommand>, id: Seq<char>)
    ensures
        spec_without_command(cmds, id).len() <= cmds.len(),
        (spec_without_command(cmds, id).len() == cmds.len()) <==> !(exists|i: int|
            0 <= i < cmds.len() && #[trigger] spec_is_command(cmds[i], id)),
    decreases cmds.len(),
{
    if cmds.len() > 0 {
        let d = cmds.drop_last();
        lemma_without_command_len(d, id);
        if exists|i: int| 0 <= i < d.len() && #[trigger] spec_is_command(d[i], id) {
            let i = choose|i: int| 0 <= i < d.len() && #[trigger] spec_is_command(d[i], id);
            assert(spec_is_command(cmds[i], id));
        }
        if exists|i: int| 0 <= i < cmds.len() && #[trigger] spec_is_command(cmds[i], id) {
            let i = choose|i: int| 0 <= i < cmds.len() && #[trigger] spec_is_command(cmds[i], id);
            if i < cmds.len() - 1 {
                assert(spec_is_command(d[i], id));
            }
        }
    }
}

/// The categories: dropping the unwanted ones leaves fewer exactly when
/// one was unwanted.
proof fn lemma_without_category_len(cats: Seq<QuickCommandCategory>, id: Seq<char>)
    ensures
        spec_without_category(cats, id).len() <= cats.len(),
        (spec_without_category(cats, id).len() == cats.len()) <==> !(exists|i: int|
            0 <= i < cats.len() && #[trigger] cats[i].id@ == id),
    decreases cats.len(),
{
    if cats.len() > 0 {
        let d = cats.drop_last();
        lemma_without_category_len(d, id);
        if exists|i: int| 0 <= i < d.len() && #[trigger] d[i].id@ == id {
            let i = choose|i: int| 0 <= i < d.len() && #[trigger] d[i].id@ == id;
            assert(cats[i].id@ == id);
        }
        if exists|i: int| 0 <= i < cats.len() && #[trigger] cats[i].id@ == id {
            let i = choose|i: int| 0 <= i < cats.len() && #[trigger] cats[i].id@ == id;
            if i < cats.len() - 1 {
                assert(d[i].id@ == id);
            }
        }
    }
}

/// The commands filed under a category and those outside it add up.
proof fn lemma_outside_category_len(cmds: Seq<QuickCommand>, id: Seq<char>)
    ensures
        spec_outside_category(cmds, id).len() + spec_count_in_category(cmds, id) == cmds.len(),
    decreases cmds.len(),
{
    if cmds.len() > 0 {
        lemma_outside_category_len(cmds.drop_last(), id);
    }
}

/// Deletes the command `command_id`; whether the catalog held it.
pub fn delete_quick_command(commands: &mut Vec<QuickCommand>, command_id: &str) -> (deleted: bool)
    ensures
        final(commands)@ == spec_without_command(old(commands)@, command_id@),
        deleted == exists|i: int|
            0 <= i < old(commands)@.len() && #[trigger] spec_is_command(
                old(commands)@[i],
                command_id@,
            ),
{
    let ghost orig = commands@;
    let before = commands.len();
    let mut i: usize = 0;
    let mut j: usize = 0;
    while i < commands.len()
        invariant
            i <= j <= orig.len(),
            orig.len() == before,
            commands@ == spec_without_command(orig.take(j as int), command_id@) + orig.skip(
                j as int,
            ),
            i == spec_without_command(orig.take(j as int), command_id@).len(),
        decreases orig.len() - j,
    {
        let ghost kept = spec_without_command(orig.take(j as int), command_id@);
        assert(commands@[i as int] == orig[j as int]);
        assert(orig.take(j + 1).drop_last() =~= orig.take(j as int));
        assert(orig.take(j + 1).last() == orig[j as int]);
        assert(orig.skip(j as int).drop_first() =~= orig.skip(j + 1));
        if str_eq(commands[i].id.as_str(), command_id) {
            commands.remove(i);
            assert(commands@ =~= kept + orig.skip(j + 1));
        } else {
            assert(commands@ =~= kept.push(orig[j as int]) + orig.skip(j + 1));
            i += 1;
        }
        j += 1;
    }
    assert(orig.take(orig.len() as int) =~= orig);
    assert(commands@ =~= spec_without_command(orig, command_id@));
    proof {
        lemma_without_command_len(orig, command_id@);
    }
    commands.len() != before
}

/// Deletes the category `category_id` and the commands filed directly
/// under it; whether the catalog held the category, and how many commands
/// went with it.
pub fn delete_quick_command_category(
    categories: &mut Vec<QuickCommandCategory>,
    commands: &mut Vec<QuickCommand>,
    category_id: &str,
) -> (r: (bool, usize))
    ensures
        final(categories)@ == spec_without_category(old(categories)@, category_id@),
        final(commands)@ == spec_outside_category(old(commands)@, category_id@),
        r.0 == exists|i: int|
            0 <= i < old(categories)@.len() && #[trigger] old(categories)@[i].id@ == category_id@,
        r.1 == spec_count_in_category(old(commands)@, category_id@),
{
    let ghost cats0 = categories@;
    let before_categories = categories.len();
    let mut i: usize = 0;
    let mut j: usize = 0;
    while i < categories.len()
        invariant
            i <= j <= cats0.len(),
            cats0.len() == before_categories,
            categories@ == spec_without_category(cats0.take(j as int), category_id@) + cats0.skip(
                j as int,
            ),
            i == spec_without_category(cats0.take(j as int), category_id@).len(),
        decreases cats0.len() - j,
    {
        let ghost kept = spec_without_category(cats0.take(j as int), category_id@);
        assert(categories@[i as int] == cats0[j as int]);
        assert(cats0.take(j + 1).drop_last() =~= cats0.take(j as int));
        assert(cats0.take(j + 1).last() == cats0[j as int]);
        assert(cats0.skip(j as int).drop_first() =~= cats0.skip(j + 1));
        if str_eq(categories[i].id.as_str(), category_id) {
            categories.remove(i);
            assert(categories@ =~= kept + cats0.skip(j + 1));
        } else {
            assert(categories@ =~= kept.push(cats0[j as int]) + cats0.skip(j + 1));
            i += 1;
        }
        j += 1;
    }
    assert(cats0.take(cats0.len() as int) =~= cats0);
    assert(categories@ =~= spec_without_category(cats0, category_id@));

    let ghost cmds0 = commands@;
    let before_commands = commands.len();
    let mut k: usize = 0;
    let mut m: usize = 0;
    while k < commands.len()
        invariant
            k <= m <= cmds0.len(),
            cmds0.len() == before_commands,
            commands@ == spec_outside_category(cmds0.take(m as int), category_id@) + cmds0.skip(
                m as int,
            ),
            k == spec_outside_category(cmds0.take(m as int), category_id@).len(),
        decreases cmds0.len() - m,
    {
        let ghost kept = spec_outside_category(cmds0.take(m as int), category_id@);
        assert(commands@[k as int] == cmds0[m as int]);
        assert(cmds0.take(m + 1).drop_last() =~= cmds0.take(m as int));
        assert(cmds0.take(m + 1).last() == cmds0[m as int]);
        assert(cmds0.skip(m as int).drop_first() =~= cmds0.skip(m + 1));
        if in_category(&commands[k], category_id) {
            commands.remove(k);
            assert(commands@ =~= kept + cmds0.skip(m + 1));
        } else {
            assert(commands@ =~= kept.push(cmds0[m as int]) + cmds0.skip(m + 1));
            k += 1;
        }
        m += 1;
    }
    assert(cmds0.take(cmds0.len() as int) =~= cmds0);
    assert(commands@ =~= spec_outside_category(cmds0, category_id@));
    proof {
        lemma_without_category_len(cats0, category_id@);
        lemma_outside_category_len(cmds0, category_id@);
    }
    (categories.len() != before_categories, before_commands - commands.len())
}

/// How many commands are filed directly under the category `category_id`.
pub fn category_command_count(commands: &Vec<QuickCommand>, category_id: &str) -> (r: usize)
    ensures
        r == spec_count_in_category(commands@, category_id@),
{
    let mut n: usize = 0;
    let mut i: usize = 0;
    while i < commands.len()
        invariant
            i <= commands@.len(),
            n == spec_count_in_category(commands@.take(i as int), category_id@),
            n <= i,
        decreases commands@.len() - i,
    {
        assert(commands@.take(i + 1).drop_last() =~= commands@.take(i as int));
        if in_category(&commands[i], category_id) {
            n += 1;
        }
        i += 1;
    }
    assert(commands@.take(commands@.len() as int) =~= commands@);
    n
}

/// After a command is deleted, no command of that id is left, and every
/// other command stays.
pub proof fn lemma_deleted_command_is_gone(cmds: Seq<QuickCommand>, id: Seq<char>)
    ensures
        forall|i: int|
            0 <= i < spec_without_command(cmds, id).len() ==> !#[trigger] spec_is_command(
                spec_without_command(cmds, id)[i],
                id,
            ),
        forall|c: QuickCommand|
            cmds.contains(c) && !spec_is_command(c, id) ==> #[trigger] spec_without_command(
                cmds,
                id,
            ).contains(c),
    decreases cmds.len(),
{
    if cmds.len() > 0 {
        let d = cmds.drop_last();
        let r = spec_without_command(d, id);
        lemma_deleted_command_is_gone(d, id);
        assert forall|c: QuickCommand| cmds.contains(c) && !spec_is_command(c, id) implies #[trigger] spec_without_command(
            cmds,
            id,
        ).contains(c) by {
            let k = choose|k: int| 0 <= k < cmds.len() && cmds[k] == c;
            if k < cmds.len() - 1 {
                assert(d[k] == c);
                assert(d.contains(c));
                assert(r.contains(c));
                let j = choose|j: int| 0 <= j < r.len() && r[j] == c;
                if !spec_is_command(cmds.last(), id) {
                    assert(r.push(cmds.last())[j] == c);
                }
            } else {
                assert(r.push(cmds.last())[r.len() as int] == c);
            }
        }
    }
}

/// After a category is deleted, neither it nor any command filed directly
/// under it is left.
pub proof fn lemma_deleted_category_is_gone(
    cats: Seq<QuickCommandCategory>,
    cmds: Seq<QuickCommand>,
    id: Seq<char>,
)
    ensures
        forall|i: int|
            0 <= i < spec_without_category(cats, id).len() ==> #[trigger] spec_without_category(
                cats,
                id,
            )[i].id@ != id,
        forall|i: int|
            0 <= i < spec_outside_category(cmds, id).len() ==> !#[trigger] spec_in_category(
                spec_outside_category(cmds, id)[i],
                id,
            ),
    decreases cats.len() + cmds.len(),
{
    if cats.len() > 0 {
        lemma_deleted_category_is_gone(cats.drop_last(), cmds, id);
    }
    if cmds.len() > 0 {
        lemma_deleted_category_is_gone(cats, cmds.drop_last(), id);
        let r = spec_outside_category(cmds.drop_last(), id);
        let out = spec_outside_category(cmds, id);
        assert forall|i: int| 0 <= i < out.len() implies !#[trigger] spec_in_category(out[i], id) by {
            if i < r.len() {
                assert(out[i] == r[i]);
            }
        }
    }
    if cats.len() > 0 {
        let r = spec_without_category(cats.drop_last(), id);
        let out = spec_without_category(cats, id);
        assert forall|i: int| 0 <= i < out.len() implies #[trigger] out[i].id@ != id by {
            if i < r.len() {
                assert(out[i] == r[i]);
            }
        }
    }
}

} // verus!
