//! The cookies of one request and its response.

use vstd::prelude::*;
use crate::fields::{NamedValue, last_value, find_value};

verus! {

/// A cookie jar: cookies by name, a later one replacing an earlier one of the
/// same name.
#[derive(Debug)]
pub struct CookieJar {
    pub cookies: Vec<NamedValue>,
}

impl CookieJar {
    /// The value that the jar holds under a name, if any.
    pub open spec fn value_of(&self, name: Seq<char>) -> Option<Seq<char>> {
        last_value(self.cookies@, name)
    }

    /// A jar without cookies.
    pub fn new() -> (r: CookieJar)
        ensures
            r.cookies@.len() == 0,
            forall|name: Seq<char>| #[trigger] r.value_of(name) is None,
    {
        CookieJar { cookies: Vec::new() }
    }

    /// The cookie of that name.
    pub fn get(&self, name: &str) -> (r: Option<&String>)
        ensures
            match r {
                Some(v) => self.value_of(name@) == Some(v@),
                None => self.value_of(name@) is None,
            },
    {
        find_value(&self.cookies, name)
    }

    /// Puts a cookie into the jar, in place of any other of its name.
    pub fn set(&mut self, name: &str, value: &str)
        ensures
            final(self).value_of(name@) == Some(value@),
            forall|other: Seq<char>|
                other != name@ ==> #[trigger] final(self).value_of(other) == old(
                    self,
                ).value_of(other),
    {
        let ghost before = self.cookies@;
        let entry = NamedValue::new(name, value);
        self.cookies.push(entry);
        assert(self.cookies@.drop_last() == before);
    }

    /// Takes every cookie of that name out of the jar.
    pub fn remove(&mut self, name: &str)
        ensures
            final(self).value_of(name@) is None,
            forall|other: Seq<char>|
                other != name@ ==> #[trigger] final(self).value_of(other) == old(
                    self,
                ).value_of(other),
    {
        let ghost before = self.cookies@;
        let wanted = name.to_owned();
        let mut kept: Vec<NamedValue> = Vec::new();
        let mut i: usize = 0;
        while i < self.cookies.len()
            invariant
                i <= self.cookies.len(),
                self.cookies@ == before,
                wanted@ == name@,
                last_value(kept@, name@) is None,
                forall|other: Seq<char>|
                    other != name@ ==> #[trigger] last_value(kept@, other) == last_value(
                        before.subrange(0, i as int),
                        other,
                    ),
            decreases self.cookies.len() - i,
        {
            let ghost prefix = before.subrange(0, i as int);
            let ghost longer = before.subrange(0, i + 1);
            let ghost kept_before = kept@;
            assert(longer.last() == before[i as int]);
            assert(longer.drop_last() == prefix);
            if self.cookies[i].name != wanted {
                let copy = NamedValue {
                    name: self.cookies[i].name.clone(),
                    value: self.cookies[i].value.clone(),
                };
                kept.push(copy);
                assert(kept@.drop_last() == kept_before);
                assert(kept@.last() == before[i as int]);
            }
            assert forall|other: Seq<char>| other != name@ implies #[trigger] last_value(
                kept@,
                other,
            ) == last_value(longer, other) by {
                assert(last_value(kept_before, other) == last_value(prefix, other));
            }
            i = i + 1;
        }
        assert(before.subrange(0, i as int) == before);
        self.cookies = kept;
    }
}

} // verus!
