//! Textual invoke inputs: a finite map from argument names to values, and
//! the adapter policy that decides whether an invocation may draw overlays.

use vstd::prelude::*;
use crate::text::{owned, text_eq};

verus! {

/// Named textual inputs of one invocation; each name occurs once.
pub struct InvokeInputs {
    entries: Vec<(String, String)>,
    map: Ghost<Map<Seq<char>, Seq<char>>>,
}

/// `entries` lists each name of `map` exactly once, with its value.
spec fn entries_match(entries: Seq<(String, String)>, map: Map<Seq<char>, Seq<char>>) -> bool {
    &&& map.dom().finite()
    &&& forall|i: int, j: int|
        0 <= i < j < entries.len() ==> #[trigger] entries[i].0@ != #[trigger] entries[j].0@
    &&& forall|i: int|
        0 <= i < entries.len() ==> {
            &&& map.contains_key(#[trigger] entries[i].0@)
            &&& map[entries[i].0@] == entries[i].1@
        }
    &&& forall|k: Seq<char>|
        #[trigger] map.contains_key(k) ==> exists|i: int| 0 <= i < entries.len() && #[trigger] entries[i].0@ == k
    &&& map.len() == entries.len()
}

impl View for InvokeInputs {
    type V = Map<Seq<char>, Seq<char>>;

    closed spec fn view(&self) -> Map<Seq<char>, Seq<char>> {
        self.map@
    }
}

impl InvokeInputs {
    #[verifier::type_invariant]
    closed spec fn well_formed(self) -> bool {
        entries_match(self.entries@, self.map@)
    }

    /// No inputs.
    pub fn new() -> (inputs: Self)
        ensures
            inputs@ == Map::<Seq<char>, Seq<char>>::empty(),
    {
        InvokeInputs { entries: Vec::new(), map: Ghost(Map::empty()) }
    }

    /// Number of named inputs.
    pub fn len(&self) -> (n: usize)
        ensures
            n == self@.len(),
    {
        proof {
            use_type_invariant(self);
        }
        self.entries.len()
    }

    /// Position of `key` among the entries, if present.
    fn position(&self, key: &str) -> (r: Option<usize>)
        ensures
            match r {
                Some(i) => i < self.entries@.len() && self.entries@[i as int].0@ == key@,
                None => !self@.contains_key(key@),
            },
    {
        proof {
            use_type_invariant(self);
        }
        let mut i: usize = 0;
        while i < self.entries.len()
            invariant
                i <= self.entries@.len(),
                forall|j: int| 0 <= j < i ==> self.entries@[j].0@ != key@,
            decreases self.entries.len() - i,
        {
            if text_eq(self.entries[i].0.as_str(), key) {
                return Some(i);
            }
            i = i + 1;
        }
        proof {
            if self@.contains_key(key@) {
                let w = choose|j: int| 0 <= j < self.entries@.len() && #[trigger] self.entries@[j].0@ == key@;
                assert(self.entries@[w].0@ == key@);
            }
        }
        None
    }

    /// The value named `key`, if any.
    pub fn get(&self, key: &str) -> (r: Option<&String>)
        ensures
            match r {
                Some(v) => self@.contains_key(key@) && self@[key@] == v@,
                None => !self@.contains_key(key@),
            },
    {
        proof {
            use_type_invariant(self);
        }
        match self.position(key) {
            Some(i) => Some(&self.entries[i].1),
            None => None,
        }
    }

    /// Whether a value is named `key`.
    pub fn contains_key(&self, key: &str) -> (r: bool)
        ensures
            r == self@.contains_key(key@),
    {
        proof {
            use_type_invariant(self);
        }
        match self.position(key) {
            Some(i) => true,
            None => false,
        }
    }

    /// Names `value` by `key`, replacing any earlier value of that name.
    pub fn insert(&mut self, key: String, value: String)
        ensures
            final(self)@ == old(self)@.insert(key@, value@),
    {
        proof {
            use_type_invariant(&*self);
        }
        let pos = self.position(key.as_str());
        let ghost old_map = self.map@;
        let ghost new_map = old_map.insert(key@, value@);
        let mut taken = InvokeInputs::new();
        std::mem::swap(&mut taken, self);
        proof {
            use_type_invariant(&taken);
        }
        let InvokeInputs { entries, map } = taken;
        let mut entries = entries;
        let ghost old_entries = entries@;
        match pos {
            Some(i) => {
                entries.set(i, (key, value));
                proof {
                    assert forall|a: int, b: int|
                        0 <= a < b < entries@.len() implies #[trigger] entries@[a].0@ != #[trigger] entries@[b].0@ by {
                        assert(old_entries[a].0@ != old_entries[b].0@);
                    }
                    assert forall|a: int| 0 <= a < entries@.len() implies {
                        &&& new_map.contains_key(#[trigger] entries@[a].0@)
                        &&& new_map[entries@[a].0@] == entries@[a].1@
                    } by {
                        if a != i {
                            assert(old_entries[a].0@ != old_entries[i as int].0@);
                        }
                    }
                    assert forall|k: Seq<char>| #[trigger] new_map.contains_key(k) implies exists|a: int|
                        0 <= a < entries@.len() && #[trigger] entries@[a].0@ == k by {
                        if k == key@ {
                            assert(entries@[i as int].0@ == k);
                        } else {
                            let w = choose|a: int| 0 <= a < old_entries.len() && #[trigger] old_entries[a].0@ == k;
                            assert(entries@[w].0@ == k);
                        }
                    }
                    assert(old_map.contains_key(key@));
                    assert(new_map.dom() =~= old_map.dom());
                    assert(new_map.len() == entries@.len());
                }
            },
            None => {
                entries.push((key, value));
                proof {
                    assert forall|a: int, b: int|
                        0 <= a < b < entries@.len() implies #[trigger] entries@[a].0@ != #[trigger] entries@[b].0@ by {
                        if b < old_entries.len() {
                            assert(old_entries[a].0@ != old_entries[b].0@);
                        } else {
                            assert(old_map.contains_key(old_entries[a].0@));
                        }
                    }
                    assert forall|a: int| 0 <= a < entries@.len() implies {
                        &&& new_map.contains_key(#[trigger] entries@[a].0@)
                        &&& new_map[entries@[a].0@] == entries@[a].1@
                    } by {
                        if a < old_entries.len() {
                            assert(old_map.contains_key(old_entries[a].0@));
                        }
                    }
                    assert forall|k: Seq<char>| #[trigger] new_map.contains_key(k) implies exists|a: int|
                        0 <= a < entries@.len() && #[trigger] entries@[a].0@ == k by {
                        if k == key@ {
                            assert(entries@[old_entries.len() as int].0@ == k);
                        } else {
                            let w = choose|a: int| 0 <= a < old_entries.len() && #[trigger] old_entries[a].0@ == k;
                            assert(entries@[w].0@ == k);
                        }
                    }
                    assert(!old_map.contains_key(key@));
                    assert(new_map.dom() == old_map.dom().insert(key@));
                    assert(new_map.len() == entries@.len());
                }
            },
        }
        assert(entries_match(entries@, new_map));
        let rebuilt = InvokeInputs { entries, map: Ghost(new_map) };
        *self = rebuilt;
    }
}

/// The value a map gives `key`, if any.
pub open spec fn lookup(m: Map<Seq<char>, Seq<char>>, key: Seq<char>) -> Option<Seq<char>> {
    if m.contains_key(key) {
        Some(m[key])
    } else {
        None
    }
}

/// Command namespaces of the core invoke catalog.
#[derive(Clone, Copy, Debug, PartialEq, Eq, Structural)]
pub enum InvokeNamespace {
    App,
    Display,
    Input,
    MediaControl,
    Overlay,
    Scan,
    Screen,
    Window,
}

/// The inputs an MCP adapter hands to a command: every command outside the
/// overlay namespace runs with incidental overlays switched off, whatever
/// its caller asked for, while explicit overlay operations keep their inputs
/// unchanged; no other input is touched.
pub fn mcp_command_inputs(namespace: InvokeNamespace, inputs: InvokeInputs) -> (result: InvokeInputs)
    ensures
        namespace == InvokeNamespace::Overlay ==> result@ == inputs@,
        namespace != InvokeNamespace::Overlay ==> result@ == inputs@.insert("overlay"@, "false"@),
        namespace != InvokeNamespace::Overlay ==> result@["overlay"@] == "false"@,
        forall|k: Seq<char>|
            k != "overlay"@ ==> (#[trigger] result@.contains_key(k) == inputs@.contains_key(k) && (
            inputs@.contains_key(k) ==> result@[k] == inputs@[k])),
{
    let mut inputs = inputs;
    if namespace != InvokeNamespace::Overlay {
        inputs.insert(owned("overlay"), owned("false"));
    }
    inputs
}

} // verus!
