//! Named text values, as a login form and a cookie jar both carry them.

use vstd::prelude::*;

verus! {

/// One field of a form, or one cookie: a name and the text that goes with it.
#[derive(Debug, PartialEq, Eq)]
pub struct NamedValue {
    pub name: String,
    pub value: String,
}

impl NamedValue {
    pub fn new(name: &str, value: &str) -> (r: NamedValue)
        ensures
            r.name@ == name@,
            r.value@ == value@,
    {
        NamedValue { name: name.to_owned(), value: value.to_owned() }
    }
}

/// The value that a list of entries gives a name: that of the last entry
/// under that name, a later entry replacing an earlier one.
pub open spec fn last_value(entries: Seq<NamedValue>, name: Seq<char>) -> Option<Seq<char>>
    decreases entries.len(),
{
    if entries.len() == 0 {
        None
    } else if entries.last().name@ == name {
        Some(entries.last().value@)
    } else {
        last_value(entries.drop_last(), name)
    }
}

/// Looks a name up in a list of entries.
pub fn find_value<'a>(entries: &'a Vec<NamedValue>, name: &str) -> (r: Option<&'a String>)
    ensures
        match r {
            Some(v) => last_value(entries@, name@) == Some(v@),
            None => last_value(entries@, name@) is None,
        },
{
    let wanted = name.to_owned();
    let mut i: usize = entries.len();
    assert(entries@.subrange(0, i as int) == entries@);
    while i > 0
        invariant
            i <= entries.len(),
            wanted@ == name@,
            last_value(entries@, name@) == last_value(entries@.subrange(0, i as int), name@),
        decreases i,
    {
        let ghost prefix = entries@.subrange(0, i as int);
        i = i - 1;
        assert(prefix.last() == entries@[i as int]);
        assert(prefix.drop_last() == entries@.subrange(0, i as int));
        if entries[i].name == wanted {
            return Some(&entries[i].value);
        }
    }
    None
}

} // verus!
