use vstd::prelude::*;
use crate::text::str_eq;

verus! {

/// One argument of a tool invocation. Strings, booleans and numbers are the
/// only JSON shapes the catalog's schemas ask for; money amounts are carried
/// in cents. Anything else is `Unsupported`, which no extractor accepts, so
/// a wrongly typed argument is treated exactly like a missing one.
#[derive(Clone, Debug, PartialEq)]
pub enum ArgValue {
    Text(String),
    Flag(bool),
    Cents(i64),
    Unsupported,
}

/// The argument object of a tool invocation: named values, first binding of
/// a name wins.
#[derive(Clone, Debug, PartialEq)]
pub struct Args {
    pub entries: Vec<(String, ArgValue)>,
}

/// The first value bound to `name`, if any.
pub open spec fn lookup_arg(entries: Seq<(String, ArgValue)>, name: Seq<char>) -> Option<ArgValue>
    decreases entries.len(),
{
    if entries.len() == 0 {
        None
    } else if entries[0].0@ == name {
        Some(entries[0].1)
    } else {
        lookup_arg(entries.drop_first(), name)
    }
}

/// The string argument `name`, or `None` when absent or not a string.
pub open spec fn arg_str(entries: Seq<(String, ArgValue)>, name: Seq<char>) -> Option<Seq<char>> {
    match lookup_arg(entries, name) {
        Some(ArgValue::Text(s)) => Some(s@),
        _ => None,
    }
}

/// The boolean argument `name`, or `None` when absent or not a boolean.
pub open spec fn arg_flag(entries: Seq<(String, ArgValue)>, name: Seq<char>) -> Option<bool> {
    match lookup_arg(entries, name) {
        Some(ArgValue::Flag(b)) => Some(b),
        _ => None,
    }
}

/// The numeric argument `name` in cents, or `None` when absent or not a
/// number.
pub open spec fn arg_cents(entries: Seq<(String, ArgValue)>, name: Seq<char>) -> Option<i64> {
    match lookup_arg(entries, name) {
        Some(ArgValue::Cents(c)) => Some(c),
        _ => None,
    }
}

impl Args {
    pub fn new() -> (r: Args)
        ensures
            r.entries@.len() == 0,
    {
        Args { entries: Vec::new() }
    }

    /// Binds a string argument (appended last; earlier bindings win).
    pub fn add_text(&mut self, name: &str, val: &str)
        ensures
            final(self).entries@.len() == old(self).entries@.len() + 1,
            final(self).entries@.take(old(self).entries@.len() as int) == old(self).entries@,
            final(self).entries@.last().0@ == name@,
            final(self).entries@.last().1 matches ArgValue::Text(s) && s@ == val@,
    {
        self.entries.push((String::from_str(name), ArgValue::Text(String::from_str(val))));
        proof {
            assert(final(self).entries@.take(old(self).entries@.len() as int) =~= old(
                self,
            ).entries@);
        }
    }

    /// Binds a boolean argument.
    pub fn add_flag(&mut self, name: &str, val: bool)
        ensures
            final(self).entries@.len() == old(self).entries@.len() + 1,
            final(self).entries@.take(old(self).entries@.len() as int) == old(self).entries@,
            final(self).entries@.last().0@ == name@,
            final(self).entries@.last().1 == ArgValue::Flag(val),
    {
        self.entries.push((String::from_str(name), ArgValue::Flag(val)));
        proof {
            assert(final(self).entries@.take(old(self).entries@.len() as int) =~= old(
                self,
            ).entries@);
        }
    }

    /// Binds a numeric argument, in cents.
    pub fn add_cents(&mut self, name: &str, cents: i64)
        ensures
            final(self).entries@.len() == old(self).entries@.len() + 1,
            final(self).entries@.take(old(self).entries@.len() as int) == old(self).entries@,
            final(self).entries@.last().0@ == name@,
            final(self).entries@.last().1 == ArgValue::Cents(cents),
    {
        self.entries.push((String::from_str(name), ArgValue::Cents(cents)));
        proof {
            assert(final(self).entries@.take(old(self).entries@.len() as int) =~= old(
                self,
            ).entries@);
        }
    }

    /// Binds an argument of a shape no extractor accepts.
    pub fn add_unsupported(&mut self, name: &str)
        ensures
            final(self).entries@.len() == old(self).entries@.len() + 1,
            final(self).entries@.take(old(self).entries@.len() as int) == old(self).entries@,
            final(self).entries@.last().0@ == name@,
            final(self).entries@.last().1 == ArgValue::Unsupported,
    {
        self.entries.push((String::from_str(name), ArgValue::Unsupported));
        proof {
            assert(final(self).entries@.take(old(self).entries@.len() as int) =~= old(
                self,
            ).entries@);
        }
    }

    pub fn get_str(&self, name: &str) -> (r: Option<&String>)
        ensures
            match r {
                Some(s) => arg_str(self.entries@, name@) == Some(s@),
                None => arg_str(self.entries@, name@) is None,
            },
    {
        let mut i: usize = 0;
        proof {
            assert(self.entries@.skip(0) =~= self.entries@);
        }
        while i < self.entries.len()
            invariant
                i <= self.entries@.len(),
                lookup_arg(self.entries@, name@) == lookup_arg(
                    self.entries@.skip(i as int),
                    name@,
                ),
            decreases self.entries@.len() - i,
        {
            proof {
                assert(self.entries@.skip(i as int)[0] == self.entries@[i as int]);
                assert(self.entries@.skip(i as int).drop_first() =~= self.entries@.skip(
                    i as int + 1,
                ));
            }
            if str_eq(self.entries[i].0.as_str(), name) {
                match &self.entries[i].1 {
                    ArgValue::Text(s) => {
                        return Some(s);
                    },
                    _ => {
                        return None;
                    },
                }
            }
            i = i + 1;
        }
        None
    }

    pub fn get_flag(&self, name: &str) -> (r: Option<bool>)
        ensures
            r == arg_flag(self.entries@, name@),
    {
        let mut i: usize = 0;
        proof {
            assert(self.entries@.skip(0) =~= self.entries@);
        }
        while i < self.entries.len()
            invariant
                i <= self.entries@.len(),
                lookup_arg(self.entries@, name@) == lookup_arg(
                    self.entries@.skip(i as int),
                    name@,
                ),
            decreases self.entries@.len() - i,
        {
            proof {
                assert(self.entries@.skip(i as int)[0] == self.entries@[i as int]);
                assert(self.entries@.skip(i as int).drop_first() =~= self.entries@.skip(
                    i as int + 1,
                ));
            }
            if str_eq(self.entries[i].0.as_str(), name) {
                match &self.entries[i].1 {
                    ArgValue::Flag(b) => {
                        return Some(*b);
                    },
                    _ => {
                        return None;
                    },
                }
            }
            i = i + 1;
        }
        None
    }

    pub fn get_cents(&self, name: &str) -> (r: Option<i64>)
        ensures
            r == arg_cents(self.entries@, name@),
    {
        let mut i: usize = 0;
        proof {
            assert(self.entries@.skip(0) =~= self.entries@);
        }
        while i < self.entries.len()
            invariant
                i <= self.entries@.len(),
                lookup_arg(self.entries@, name@) == lookup_arg(
                    self.entries@.skip(i as int),
                    name@,
                ),
            decreases self.entries@.len() - i,
        {
            proof {
                assert(self.entries@.skip(i as int)[0] == self.entries@[i as int]);
                assert(self.entries@.skip(i as int).drop_first() =~= self.entries@.skip(
                    i as int + 1,
                ));
            }
            if str_eq(self.entries[i].0.as_str(), name) {
                match &self.entries[i].1 {
                    ArgValue::Cents(c) => {
                        return Some(*c);
                    },
                    _ => {
                        return None;
                    },
                }
            }
            i = i + 1;
        }
        None
    }
}

} // verus!
