//! Creating and renaming quick-command categories: a name is required, is
//! trimmed, and must not match another category's name when case is
//! ignored; a new category goes last among its siblings, under a parent
//! that still exists.

use vstd::prelude::*;

use crate::quick_command::QuickCommandCategory;
use crate::settings::normalize::{eq_ignore_ascii_case, spec_eq_ignore_ascii_case};
use crate::text::{spec_trim, str_eq, trim};

verus! {

/// Why a category name is refused.
#[derive(Clone, Copy, Debug, PartialEq, Eq, Structural)]
pub enum CategoryNameError {
    /// The name is blank.
    Required,
    /// Another category has the name, case aside.
    Duplicated,
}

/// Whether a category other than the one named `except` has the name
/// `name`, ASCII case aside and its own name trimmed.
pub open spec fn spec_name_taken(
    cats: Seq<QuickCommandCategory>,
    name: Seq<char>,
    except: Option<Seq<char>>,
) -> bool {
    exists|i: int|
        0 <= i < cats.len() && Some(cats[i].id@) != except && spec_eq_ignore_ascii_case(
            spec_trim(#[trigger] cats[i].name@),
            name,
        )
}

/// The name that a draft gives, or why it is refused.
pub open spec fn spec_check_category_name(
    draft: Seq<char>,
    cats: Seq<QuickCommandCategory>,
    except: Option<Seq<char>>,
) -> Result<Seq<char>, CategoryNameError> {
    let name = spec_trim(draft);
    if name.len() == 0 {
        Err(CategoryNameError::Required)
    } else if spec_name_taken(cats, name, except) {
        Err(CategoryNameError::Duplicated)
    } else {
        Ok(name)
    }
}

/// A checked name as text.
pub open spec fn name_result_view(r: Result<String, CategoryNameError>) -> Result<
    Seq<char>,
    CategoryNameError,
> {
    match r {
        Ok(s) => Ok(s@),
        Err(e) => Err(e),
    }
}

/// An optional id as text.
pub open spec fn opt_id(o: Option<&str>) -> Option<Seq<char>> {
    match o {
        Some(s) => Some(s@),
        None => None,
    }
}

/// Whether another category than `except` has the name `name`.
fn name_taken(cats: &Vec<QuickCommandCategory>, name: &str, except: Option<&str>) -> (r: bool)
    ensures
        r == spec_name_taken(cats@, name@, opt_id(except)),
{
    let mut i: usize = 0;
    while i < cats.len()
        invariant
            i <= cats@.len(),
            forall|j: int|
                0 <= j < i ==> !(Some(cats@[j].id@) != opt_id(except) && spec_eq_ignore_ascii_case(
                    spec_trim(#[trigger] cats@[j].name@),
                    name@,
                )),
        decreases cats@.len() - i,
    {
        let same = match except {
            Some(id) => str_eq(cats[i].id.as_str(), id),
            None => false,
        };
        if !same {
            let existing = trim(cats[i].name.as_str());
            if eq_ignore_ascii_case(existing.as_str(), name) {
                assert(Some(cats@[i as int].id@) != opt_id(except));
                return true;
            }
        }
        i += 1;
    }
    false
}

/// The name that `draft` gives, or why it is refused; `except` is the
/// category being renamed, whose own name does not count.
pub fn check_category_name(draft: &str, cats: &Vec<QuickCommandCategory>, except: Option<&str>) -> (r:
    Result<String, CategoryNameError>)
    ensures
        name_result_view(r) == spec_check_category_name(draft@, cats@, opt_id(except)),
{
    let name = trim(draft);
    if name.as_str().is_empty() {
        return Err(CategoryNameError::Required);
    }
    if name_taken(cats, name.as_str(), except) {
        return Err(CategoryNameError::Duplicated);
    }
    Ok(name)
}

/// Whether some category has the id `id`.
pub open spec fn spec_has_category(cats: Seq<QuickCommandCategory>, id: Seq<char>) -> bool {
    exists|i: int| 0 <= i < cats.len() && #[trigger] cats[i].id@ == id
}

/// A parent chosen for a new category, dropped when no category has its
/// id any more.
pub open spec fn spec_live_parent(cats: Seq<QuickCommandCategory>, parent: Option<Seq<char>>) -> Option<
    Seq<char>,
> {
    match parent {
        Some(p) => if spec_has_category(cats, p) {
            Some(p)
        } else {
            None
        },
        None => None,
    }
}

/// An optional owned id as text.
pub open spec fn opt_text(o: Option<String>) -> Option<Seq<char>> {
    match o {
        Some(s) => Some(s@),
        None => None,
    }
}

/// Whether some category has the id `id`.
fn has_category(cats: &Vec<QuickCommandCategory>, id: &str) -> (r: bool)
    ensures
        r == spec_has_category(cats@, id@),
{
    let mut i: usize = 0;
    while i < cats.len()
        invariant
            i <= cats@.len(),
            forall|j: int| 0 <= j < i ==> cats@[j].id@ != id@,
        decreases cats@.len() - i,
    {
        if str_eq(cats[i].id.as_str(), id) {
            assert(cats@[i as int].id@ == id@);
            return true;
        }
        i += 1;
    }
    false
}

/// A parent chosen for a new category, dropped when it no longer exists.
pub fn live_parent(cats: &Vec<QuickCommandCategory>, parent: Option<String>) -> (r: Option<String>)
    ensures
        opt_text(r) == spec_live_parent(cats@, opt_text(parent)),
{
    match parent {
        None => None,
        Some(p) => if has_category(cats, p.as_str()) {
            Some(p)
        } else {
            None
        },
    }
}

/// The largest sort order among the categories under `parent`, if any.
pub open spec fn spec_max_sibling_order(cats: Seq<QuickCommandCategory>, parent: Option<Seq<char>>) -> Option<
    i32,
>
    decreases cats.len(),
{
    if cats.len() == 0 {
        None
    } else {
        let rest = spec_max_sibling_order(cats.drop_last(), parent);
        let c = cats.last();
        if opt_text(c.parent_id) == parent {
            match rest {
                Some(m) => if m >= c.sort_order {
                    Some(m)
                } else {
                    Some(c.sort_order)
                },
                None => Some(c.sort_order),
            }
        } else {
            rest
        }
    }
}

/// The sort order that puts a new category after its siblings: one more
/// than the largest, zero with none, and no more than the largest `i32`.
pub open spec fn spec_next_sort_order(cats: Seq<QuickCommandCategory>, parent: Option<Seq<char>>) -> i32 {
    let m: i32 = match spec_max_sibling_order(cats, parent) {
        Some(m) => m,
        None => -1i32,
    };
    if m == i32::MAX {
        m
    } else {
        (m + 1) as i32
    }
}

/// Whether `a` and `b` are the same optional id.
fn same_parent(a: &Option<String>, b: &Option<String>) -> (r: bool)
    ensures
        r == (opt_text(*a) == opt_text(*b)),
{
    match (a, b) {
        (None, None) => true,
        (Some(x), Some(y)) => str_eq(x.as_str(), y.as_str()),
        _ => false,
    }
}

/// The sort order for a new category under `parent`.
pub fn next_sort_order(cats: &Vec<QuickCommandCategory>, parent: &Option<String>) -> (r: i32)
    ensures
        r == spec_next_sort_order(cats@, opt_text(*parent)),
{
    let mut best: Option<i32> = None;
    let mut i: usize = 0;
    proof {
        assert(cats@.take(0) =~= Seq::<QuickCommandCategory>::empty());
    }
    while i < cats.len()
        invariant
            i <= cats@.len(),
            best == spec_max_sibling_order(cats@.take(i as int), opt_text(*parent)),
        decreases cats@.len() - i,
    {
        proof {
            assert(cats@.take(i + 1).drop_last() =~= cats@.take(i as int));
            assert(cats@.take(i + 1).last() == cats@[i as int]);
        }
        let c = &cats[i];
        if same_parent(&c.parent_id, parent) {
            best = match best {
                Some(m) => if m >= c.sort_order {
                    Some(m)
                } else {
                    Some(c.sort_order)
                },
                None => Some(c.sort_order),
            };
        }
        i += 1;
    }
    proof {
        assert(cats@.take(cats@.len() as int) =~= cats@);
    }
    let m = match best {
        Some(m) => m,
        None => -1,
    };
    if m == i32::MAX {
        m
    } else {
        m + 1
    }
}

/// What confirming a new category did.
#[derive(Clone, Copy, Debug, PartialEq, Eq, Structural)]
pub enum CategoryCreateOutcome {
    Created,
    Duplicated,
}

/// Adds a category named `name` (already checked) with the fresh id `id`:
/// unless another category took the name meanwhile, it goes last under
/// `parent` when that still exists, else at the root.
pub fn create_category(
    cats: &mut Vec<QuickCommandCategory>,
    id: String,
    name: String,
    parent: Option<String>,
) -> (r: CategoryCreateOutcome)
    ensures
        spec_name_taken(old(cats)@, name@, None) ==> r == CategoryCreateOutcome::Duplicated
            && final(cats)@ == old(cats)@,
        !spec_name_taken(old(cats)@, name@, None) ==> {
            &&& r == CategoryCreateOutcome::Created
            &&& final(cats)@.len() == old(cats)@.len() + 1
            &&& final(cats)@.drop_last() == old(cats)@
            &&& final(cats)@.last().id@ == id@
            &&& final(cats)@.last().name@ == name@
            &&& opt_text(final(cats)@.last().parent_id) == spec_live_parent(
                old(cats)@,
                opt_text(parent),
            )
            &&& final(cats)@.last().sort_order == spec_next_sort_order(
                old(cats)@,
                spec_live_parent(old(cats)@, opt_text(parent)),
            )
        },
{
    if name_taken(cats, name.as_str(), None) {
        return CategoryCreateOutcome::Duplicated;
    }
    let parent_id = live_parent(cats, parent);
    let sort_order = next_sort_order(cats, &parent_id);
    let ghost before = cats@;
    cats.push(QuickCommandCategory { id, name, parent_id, sort_order });
    proof {
        assert(cats@.drop_last() =~= before);
    }
    CategoryCreateOutcome::Created
}

/// What confirming a new name did: `(renamed, duplicated)`.
pub fn rename_category(cats: &mut Vec<QuickCommandCategory>, id: &str, name: String) -> (r: (
    bool,
    bool,
))
    ensures
        r.1 == spec_name_taken(old(cats)@, name@, Some(id@)),
        r.1 ==> !r.0 && final(cats)@ == old(cats)@,
        !r.1 ==> (r.0 <==> spec_has_category(old(cats)@, id@)),
        !r.1 && !r.0 ==> final(cats)@ == old(cats)@,
        r.0 ==> exists|k: int|
            0 <= k < old(cats)@.len() && old(cats)@[k].id@ == id@ && (forall|j: int|
                0 <= j < k ==> (#[trigger] old(cats)@[j]).id@ != id@) && final(cats)@ == old(
                cats,
            )@.update(k, QuickCommandCategory { name, ..old(cats)@[k] }),
{
    if name_taken(cats, name.as_str(), Some(id)) {
        return (false, true);
    }
    let mut i: usize = 0;
    while i < cats.len()
        invariant
            i <= cats@.len(),
            cats@ == old(cats)@,
            !spec_name_taken(old(cats)@, name@, Some(id@)),
            forall|j: int| 0 <= j < i ==> (#[trigger] cats@[j]).id@ != id@,
        decreases cats@.len() - i,
    {
        if str_eq(cats[i].id.as_str(), id) {
            let ghost before = cats@;
            let old_category = cats.remove(i);
            let renamed = QuickCommandCategory {
                id: old_category.id,
                name,
                parent_id: old_category.parent_id,
                sort_order: old_category.sort_order,
            };
            cats.insert(i, renamed);
            proof {
                assert(cats@ =~= before.update(i as int, QuickCommandCategory { name, ..before[i as int] }));
            }
            return (true, false);
        }
        i += 1;
    }
    (false, false)
}

/// A created category's name clashes, case aside, with no category that
/// was there before it, and a renamed one with no other category.
pub proof fn lemma_checked_names_do_not_clash(
    cats: Seq<QuickCommandCategory>,
    draft: Seq<char>,
    except: Option<Seq<char>>,
)
    ensures
        spec_check_category_name(draft, cats, except) matches Ok(name) ==> forall|i: int|
            0 <= i < cats.len() && Some(cats[i].id@) != except ==> !spec_eq_ignore_ascii_case(
                spec_trim(#[trigger] cats[i].name@),
                name,
            ),
{
}

} // verus!
