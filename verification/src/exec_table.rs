//! The table that routes file extensions to the commands that open them.

use crate::text::copy_strings;
use vstd::prelude::*;

verus! {

/// A finite map from a command line to the file extensions that it opens, in the
/// order in which they were listed. A command occurs at most once; it is found by
/// its exact text, flags and spaces included.
#[derive(Debug, PartialEq, Eq)]
pub struct ExecTable {
    entries: Vec<(String, Vec<String>)>,
}

impl View for ExecTable {
    type V = Map<Seq<char>, Seq<Seq<char>>>;

    closed spec fn view(&self) -> Map<Seq<char>, Seq<Seq<char>>> {
        Map::new(
            |command: Seq<char>| self.holds(command),
            |command: Seq<char>| self.entries@[self.position(command)].1.deep_view(),
        )
    }
}

impl Clone for ExecTable {
    fn clone(&self) -> (copy: ExecTable)
        ensures
            copy@ == self@,
    {
        proof {
            use_type_invariant(self);
        }
        let mut entries: Vec<(String, Vec<String>)> = Vec::new();
        let mut i: usize = 0;
        while i < self.entries.len()
            invariant
                i <= self.entries@.len(),
                entries@.len() == i,
                forall|j: int|
                    0 <= j < i ==> (#[trigger] entries@[j]).0@ == self.entries@[j].0@
                        && entries@[j].1.deep_view() == self.entries@[j].1.deep_view(),
            decreases self.entries@.len() - i,
        {
            let command = self.entries[i].0.clone();
            let extensions = copy_strings(&self.entries[i].1);
            entries.push((command, extensions));
            i += 1;
        }
        proof {
            assert forall|a: int, b: int| 0 <= a < b < entries@.len() implies (
            #[trigger] entries@[a]).0@ != (#[trigger] entries@[b]).0@ by {
                assert(self.entries@[a].0@ != self.entries@[b].0@);
            }
        }
        let copy = ExecTable { entries };
        proof {
            assert forall|c: Seq<char>| copy.holds(c) == self.holds(c) by {
                if copy.holds(c) {
                    let p = copy.position(c);
                    assert(copy.at(c, p));
                    assert(self.at(c, p));
                }
                if self.holds(c) {
                    let p = self.position(c);
                    assert(self.at(c, p));
                    assert(copy.at(c, p));
                }
            }
            assert forall|c: Seq<char>| copy.holds(c) implies copy@[c] == self@[c] by {
                let p = copy.position(c);
                assert(copy.at(c, p));
                assert(self.at(c, p));
                let q = self.position(c);
                assert(self.at(c, q));
                assert(q == p);
            }
            assert(copy@ =~= self@);
        }
        copy
    }
}

impl ExecTable {
    #[verifier::type_invariant]
    closed spec fn distinct_commands(self) -> bool {
        forall|i: int, j: int|
            0 <= i < j < self.entries@.len() ==> (#[trigger] self.entries@[i]).0@
                != (#[trigger] self.entries@[j]).0@
    }

    closed spec fn at(self, command: Seq<char>, i: int) -> bool {
        0 <= i < self.entries@.len() && self.entries@[i].0@ == command
    }

    closed spec fn holds(self, command: Seq<char>) -> bool {
        exists|i: int| self.at(command, i)
    }

    closed spec fn position(self, command: Seq<char>) -> int {
        choose|i: int| self.at(command, i)
    }

    /// A table without commands.
    pub fn new() -> (table: ExecTable)
        ensures
            table@ == Map::<Seq<char>, Seq<Seq<char>>>::empty(),
    {
        let table = ExecTable { entries: Vec::new() };
        assert(table@ =~= Map::<Seq<char>, Seq<Seq<char>>>::empty()) by {
            assert forall|command: Seq<char>| !table.holds(command) by {
                assert forall|i: int| !table.at(command, i) by {}
            }
        }
        table
    }

    /// The commands with their extensions, each command once.
    pub fn entries(&self) -> (entries: &Vec<(String, Vec<String>)>)
        ensures
            forall|i: int|
                0 <= i < entries@.len() ==> self@.contains_key((#[trigger] entries@[i]).0@)
                    && self@[entries@[i].0@] == entries@[i].1.deep_view(),
            forall|command: Seq<char>|
                self@.contains_key(command) ==> exists|i: int|
                    0 <= i < entries@.len() && (#[trigger] entries@[i]).0@ == command,
            forall|i: int, j: int|
                0 <= i < j < entries@.len() ==> (#[trigger] entries@[i]).0@
                    != (#[trigger] entries@[j]).0@,
    {
        proof {
            use_type_invariant(self);
            assert forall|i: int| 0 <= i < self.entries@.len() implies self@.contains_key(
                (#[trigger] self.entries@[i]).0@,
            ) && self@[self.entries@[i].0@] == self.entries@[i].1.deep_view() by {
                let command = self.entries@[i].0@;
                assert(self.at(command, i));
                let p = self.position(command);
                assert(self.at(command, p));
                assert(p == i);
            }
            assert forall|command: Seq<char>| self@.contains_key(command) implies exists|i: int|
                0 <= i < self.entries@.len() && (#[trigger] self.entries@[i]).0@ == command by {
                let p = self.position(command);
                assert(self.at(command, p));
            }
        }
        &self.entries
    }

    /// The extensions listed for `command`, if the table holds it.
    pub fn get(&self, command: &str) -> (found: Option<&Vec<String>>)
        ensures
            match found {
                Some(extensions) => self@.contains_key(command@) && extensions.deep_view()
                    == self@[command@],
                None => !self@.contains_key(command@),
            },
    {
        proof {
            use_type_invariant(self);
        }
        let wanted = command.to_owned();
        let mut i: usize = 0;
        while i < self.entries.len()
            invariant
                i <= self.entries@.len(),
                wanted@ == command@,
                self.distinct_commands(),
                forall|j: int| 0 <= j < i ==> !self.at(command@, j),
            decreases self.entries@.len() - i,
        {
            if self.entries[i].0 == wanted {
                proof {
                    assert(self.at(command@, i as int));
                    let p = self.position(command@);
                    assert(self.at(command@, p));
                    assert(p == i);
                }
                return Some(&self.entries[i].1);
            }
            i += 1;
        }
        proof {
            assert forall|j: int| !self.at(command@, j) by {}
        }
        None
    }

    /// Lists `extensions` for `command`. A command that the table already holds
    /// keeps its place and gets the new list.
    pub fn insert(&mut self, command: String, extensions: Vec<String>)
        ensures
            final(self)@ == old(self)@.insert(command@, extensions.deep_view()),
    {
        proof {
            use_type_invariant(&*self);
        }
        let ghost before = *self;
        let ghost key = command@;
        let ghost listed = extensions.deep_view();
        let mut entries: Vec<(String, Vec<String>)> = Vec::new();
        core::mem::swap(&mut self.entries, &mut entries);
        let mut i: usize = 0;
        let mut found: Option<usize> = None;
        while i < entries.len() && found.is_none()
            invariant
                i <= entries@.len(),
                entries@ == before.entries@,
                key == command@,
                found matches Some(at) ==> before.at(key, at as int),
                found is None ==> forall|j: int| 0 <= j < i ==> !before.at(key, j),
            decreases entries@.len() - i + (if found is None { 1int } else { 0int }),
        {
            if entries[i].0 == command {
                found = Some(i);
            } else {
                i += 1;
            }
        }
        match found {
            Some(at) => {
                entries.set(at, (command, extensions));
            },
            None => {
                entries.push((command, extensions));
            },
        }
        let ghost place = match found {
            Some(at) => at as int,
            None => before.entries@.len() as int,
        };
        proof {
            assert forall|a: int, b: int| 0 <= a < b < entries@.len() implies (
            #[trigger] entries@[a]).0@ != (#[trigger] entries@[b]).0@ by {
                if b < before.entries@.len() {
                    assert(before.entries@[a].0@ != before.entries@[b].0@);
                } else {
                    assert(!before.at(key, a));
                }
            }
        }
        core::mem::swap(&mut self.entries, &mut entries);
        proof {
            let after = *self;
            assert(after.at(key, place));
            assert forall|c: Seq<char>| after.holds(c) == (before.holds(c) || c == key) by {
                if after.holds(c) {
                    let p = after.position(c);
                    assert(after.at(c, p));
                    if p != place {
                        assert(before.at(c, p));
                    }
                }
                if before.holds(c) {
                    let p = before.position(c);
                    assert(before.at(c, p));
                    assert(after.at(c, p));
                }
            }
            assert forall|c: Seq<char>| after.holds(c) implies after@[c] == before@.insert(
                key,
                listed,
            )[c] by {
                let p = after.position(c);
                assert(after.at(c, p));
                if c == key {
                    assert(p == place);
                } else {
                    assert(before.at(c, p));
                    let q = before.position(c);
                    assert(before.at(c, q));
                    assert(q == p);
                }
            }
            assert(after@ =~= before@.insert(key, listed));
        }
    }
}

} // verus!
