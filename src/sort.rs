use vstd::prelude::*;
use crate::matcher::{
    extension_key, first_match, is_sort_choice, matches_any, matches_any_spec, no_extension_key,
    sort_applies,
};
use crate::rules::CommandOpts;

verus! {

/// A regular file of the target directory, as seen when the run lists it.
pub struct FileRecord {
    pub name: String,
    pub size: u64,
}

/// What the rules decide for one file.
#[derive(Clone, Copy, Debug, PartialEq, Eq, Structural)]
pub enum Disposition {
    /// A keep pattern hits the file: nothing may happen to it.
    Protected,
    /// A delete pattern hits the file.
    Delete,
    /// The sort table entry with this index applies to the file.
    Sort(usize),
    /// No rule applies.
    Untouched,
}

/// What the run does next with one file.
#[derive(Clone, Copy, Debug, PartialEq, Eq, Structural)]
pub enum Action {
    /// Leave the file: it is protected.
    Protected,
    /// Leave the file: no rule applies.
    Untouched,
    /// Leave the file: the operator declined its deletion.
    Declined,
    /// Ask the operator to confirm the deletion.
    AskYesNo,
    /// Ask the operator to pick a destination of this sort table entry.
    AskLocation(usize),
    /// Delete the file.
    Remove,
    /// Move the file into the destination with the second index of the sort
    /// table entry with the first index.
    MoveTo(usize, usize),
}

/// Some keep pattern hits the file name.
pub open spec fn keep_matched(o: CommandOpts, name: Seq<char>) -> bool {
    matches_any_spec(o.keep_prefixes@, name) || matches_any_spec(o.keep_extensions@, name)
}

/// Some delete pattern hits the file name.
pub open spec fn delete_matched(o: CommandOpts, name: Seq<char>) -> bool {
    matches_any_spec(o.del_prefixes@, name) || matches_any_spec(o.del_extensions@, name)
}

/// `d` is the disposition of a file with this name: keep first, then delete
/// unless deletion is off, then sort unless sorting is off.
pub open spec fn disposition_fits(o: CommandOpts, name: Seq<char>, d: Disposition) -> bool {
    if keep_matched(o, name) {
        d == Disposition::Protected
    } else if !o.no_del && delete_matched(o, name) {
        d == Disposition::Delete
    } else if !o.no_sort && sort_applies(o.sort_table@, name) {
        &&& d is Sort
        &&& is_sort_choice(o.sort_table@, name, d->Sort_0 as int)
    } else {
        d == Disposition::Untouched
    }
}

/// A disposition whose sort index, if any, lies in the table.
pub open spec fn disposition_in_table(o: CommandOpts, d: Disposition) -> bool {
    d is Sort ==> d->Sort_0 < o.sort_table@.len()
}

/// The first action for a file of disposition `d`.
pub open spec fn action_for(o: CommandOpts, d: Disposition) -> Action {
    match d {
        Disposition::Protected => Action::Protected,
        Disposition::Untouched => Action::Untouched,
        Disposition::Delete => if o.safe_mode {
            Action::AskYesNo
        } else {
            Action::Remove
        },
        Disposition::Sort(i) => if o.sort_table@[i as int].destinations@.len() > 1 {
            Action::AskLocation(i)
        } else {
            Action::MoveTo(i, 0)
        },
    }
}

/// The action does something to the file or asks the operator.
pub open spec fn acts(a: Action) -> bool {
    !(a is Protected || a is Untouched || a is Declined)
}

/// Decides the disposition of one file.
pub fn resolve(file: &FileRecord, o: &CommandOpts) -> (d: Disposition)
    ensures
        disposition_fits(*o, file.name@, d),
        disposition_in_table(*o, d),
{
    let name = file.name.as_str();
    if matches_any(name, &o.keep_prefixes) || matches_any(name, &o.keep_extensions) {
        return Disposition::Protected;
    }
    if !o.no_del && (matches_any(name, &o.del_prefixes) || matches_any(name, &o.del_extensions)) {
        return Disposition::Delete;
    }
    if !o.no_sort {
        match first_match(name, &o.sort_table) {
            Some(i) => {
                return Disposition::Sort(i);
            },
            None => {},
        }
    }
    Disposition::Untouched
}

/// The first action for a file: deletion is confirmed first in safe mode, and
/// an entry with several destinations has the operator pick one.
pub fn plan(d: Disposition, o: &CommandOpts) -> (a: Action)
    requires
        o.wf(),
        disposition_in_table(*o, d),
    ensures
        a == action_for(*o, d),
{
    match d {
        Disposition::Protected => Action::Protected,
        Disposition::Untouched => Action::Untouched,
        Disposition::Delete => if o.safe_mode {
            Action::AskYesNo
        } else {
            Action::Remove
        },
        Disposition::Sort(i) => if o.sort_table[i].destinations.len() > 1 {
            Action::AskLocation(i)
        } else {
            Action::MoveTo(i, 0)
        },
    }
}

/// The action that follows the operator's answer to a deletion prompt: a yes
/// deletes, a no leaves the file, no valid answer asks again.
pub fn after_confirmation(reply: Option<bool>) -> (a: Action)
    ensures
        a == (match reply {
            Some(true) => Action::Remove,
            Some(false) => Action::Declined,
            None => Action::AskYesNo,
        }),
{
    match reply {
        Some(true) => Action::Remove,
        Some(false) => Action::Declined,
        None => Action::AskYesNo,
    }
}

/// The value of a string of decimal digits.
pub open spec fn decimal_value(s: Seq<char>) -> int
    decreases s.len(),
{
    if s.len() == 0 {
        0
    } else {
        decimal_value(s.drop_last()) * 10 + ((s.last() as u32) as int - ('0' as u32) as int)
    }
}

/// A non-empty string of decimal digits.
pub open spec fn is_decimal(s: Seq<char>) -> bool {
    s.len() > 0 && forall|i: int| 0 <= i < s.len() ==> '0' <= #[trigger] s[i] <= '9'
}

/// The number that `str::parse::<usize>` reads from a text: an optional `+`,
/// then decimal digits, with a value that fits in `usize`.
pub open spec fn parsed_usize(s: Seq<char>) -> Option<int> {
    let digits = if s.len() > 0 && s[0] == '+' {
        s.drop_first()
    } else {
        s
    };
    if is_decimal(digits) && decimal_value(digits) <= usize::MAX {
        Some(decimal_value(digits))
    } else {
        None
    }
}

proof fn decimal_value_nonneg(s: Seq<char>)
    requires
        forall|i: int| 0 <= i < s.len() ==> '0' <= #[trigger] s[i] <= '9',
    ensures
        decimal_value(s) >= 0,
    decreases s.len(),
{
    if s.len() > 0 {
        assert(s.last() == s[s.len() - 1]);
        decimal_value_nonneg(s.drop_last());
    }
}

/// Relies on `str::parse::<usize>`: an optional `+` and decimal digits whose
/// value fits; anything else is an error.
#[verifier::external_body]
fn parse_usize(s: &str) -> (r: Option<usize>)
    ensures
        match parsed_usize(s@) {
            Some(v) => r == Some(v as usize),
            None => r is None,
        },
{
    s.parse::<usize>().ok()
}

/// The index that the operator's answer selects among `count` choices:
/// a decimal number below `count`, else none.
pub fn select_location(answer: &str, count: usize) -> (r: Option<usize>)
    ensures
        match parsed_usize(answer@) {
            Some(v) => if v < count {
                r == Some(v as usize)
            } else {
                r is None
            },
            None => r is None,
        },
{
    proof {
        let digits = if answer@.len() > 0 && answer@[0] == '+' {
            answer@.drop_first()
        } else {
            answer@
        };
        if is_decimal(digits) {
            decimal_value_nonneg(digits);
        }
    }
    match parse_usize(answer) {
        Some(v) => if v < count {
            Some(v)
        } else {
            None
        },
        None => None,
    }
}

/// The action that follows the operator's answer when asked to pick a
/// destination of sort table entry `rule`: a valid index moves the file there,
/// anything else asks again.
pub fn after_selection(rule: usize, answer: &str, o: &CommandOpts) -> (a: Action)
    requires
        rule < o.sort_table@.len(),
    ensures
        ({
            let n = o.sort_table@[rule as int].destinations@.len();
            match parsed_usize(answer@) {
                Some(v) => if v < n {
                    a == Action::MoveTo(rule, v as usize)
                } else {
                    a == Action::AskLocation(rule)
                },
                None => a == Action::AskLocation(rule),
            }
        }),
{
    match select_location(answer, o.sort_table[rule].destinations.len()) {
        Some(i) => Action::MoveTo(rule, i),
        None => Action::AskLocation(rule),
    }
}

/// The rules give each file name exactly one disposition.
pub proof fn disposition_is_unique(o: CommandOpts, name: Seq<char>, d1: Disposition, d2: Disposition)
    requires
        disposition_fits(o, name, d1),
        disposition_fits(o, name, d2),
    ensures
        d1 == d2,
{
    if d1 is Sort && d2 is Sort {
        let i = d1->Sort_0 as int;
        let k = d2->Sort_0 as int;
        let t = o.sort_table@;
        if i < k {
            if crate::matcher::has_prefix_hit(t, name) {
                assert(crate::matcher::prefix_hit(t, name, i));
            } else {
                assert(t[i].pattern@ == extension_key(name));
            }
        } else if k < i {
            if crate::matcher::has_prefix_hit(t, name) {
                assert(crate::matcher::prefix_hit(t, name, k));
            } else {
                assert(t[k].pattern@ == extension_key(name));
            }
        }
    }
}

/// A file protected by a keep pattern is never deleted nor moved, whatever
/// delete or sort pattern hits it too.
pub proof fn keep_always_protects(o: CommandOpts, name: Seq<char>, d: Disposition)
    requires
        keep_matched(o, name),
        disposition_fits(o, name, d),
    ensures
        d == Disposition::Protected,
        !acts(action_for(o, d)),
{
}

/// A file hit by a delete pattern and by a keep pattern is protected, not
/// deleted.
pub proof fn keep_overrides_delete(o: CommandOpts, name: Seq<char>, d: Disposition)
    requires
        keep_matched(o, name),
        delete_matched(o, name),
        disposition_fits(o, name, d),
    ensures
        d == Disposition::Protected,
        d != Disposition::Delete,
{
}

/// A file name without a `.` has no extension, so no extension pattern other
/// than the placeholder key for such names is its extension key.
pub proof fn no_dot_no_extension(name: Seq<char>, p: Seq<char>)
    requires
        forall|i: int| 0 <= i < name.len() ==> name[i] != '.',
        p != no_extension_key(),
    ensures
        p != extension_key(name),
{
    assert(!exists|d: int| crate::matcher::is_last_dot(name, d));
}

/// Once no file is hit by a delete pattern or a sort table entry, a run does
/// nothing to any file and asks nothing.
pub proof fn settled_file_is_left_alone(o: CommandOpts, name: Seq<char>, d: Disposition)
    requires
        !delete_matched(o, name),
        !sort_applies(o.sort_table@, name),
        disposition_fits(o, name, d),
    ensures
        d == Disposition::Protected || d == Disposition::Untouched,
        !acts(action_for(o, d)),
{
}

} // verus!
