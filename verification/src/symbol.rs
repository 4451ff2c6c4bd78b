//! Interning of names.
//!
//! A name is mapped to a stable integer.  System symbols take the ids below
//! [`USER_SYMBOL_START`], user symbols the ids from there on.

use vstd::prelude::*;
use vstd::hash_map::StringHashMap;

verus! {

/// The first id of the user range.
pub const USER_SYMBOL_START: u128 = 10000;

/// The id of an interned name.
#[derive(Copy, Clone, Hash, PartialEq, Eq, Debug, Structural)]
pub struct SymbolId(pub u128);

impl SymbolId {
    /// The system symbol reserved for the null type.
    pub fn null() -> (r: Self)
        ensures
            r == SymbolId(0),
    {
        SymbolId(0)
    }

    /// The system symbol reserved for the number type.
    pub fn num() -> (r: Self)
        ensures
            r == SymbolId(1),
    {
        SymbolId(1)
    }

    /// The system symbol reserved for the string type.
    pub fn str() -> (r: Self)
        ensures
            r == SymbolId(2),
    {
        SymbolId(2)
    }
}

/// The interner, seen as a mathematical value.
pub struct SymbolTableModel {
    /// The id of every interned name.
    pub ids: Map<Seq<char>, SymbolId>,
    /// How many system symbols have been handed out.
    pub system_next: nat,
    /// How many user symbols have been handed out.
    pub user_count: nat,
}

impl SymbolTableModel {
    /// The table that holds no name.
    pub open spec fn empty() -> SymbolTableModel {
        SymbolTableModel { ids: Map::empty(), system_next: 0, user_count: 0 }
    }

    /// Every id lies in the part of its range that has been handed out, and
    /// no two names share an id.
    pub open spec fn wf(self) -> bool {
        &&& self.system_next <= USER_SYMBOL_START
        &&& self.system_next + self.user_count <= usize::MAX
        &&& self.ids.dom().finite()
        &&& self.ids.len() == self.system_next + self.user_count
        &&& forall|n: Seq<char>| #[trigger]
            self.ids.contains_key(n) ==> self.ids[n].0 < self.system_next || (USER_SYMBOL_START
                <= self.ids[n].0 < USER_SYMBOL_START + self.user_count)
        &&& forall|n: Seq<char>, m: Seq<char>|
            self.ids.contains_key(n) && self.ids.contains_key(m) && n != m ==> #[trigger] self.ids[n]
                != #[trigger] self.ids[m]
    }

    /// The table after `name` has been interned as a user symbol.
    pub open spec fn intern(self, name: Seq<char>) -> SymbolTableModel {
        if self.ids.contains_key(name) {
            self
        } else {
            SymbolTableModel {
                ids: self.ids.insert(name, SymbolId((USER_SYMBOL_START + self.user_count) as u128)),
                system_next: self.system_next,
                user_count: self.user_count + 1,
            }
        }
    }

    /// The table after `name` has been interned as a system symbol.
    pub open spec fn intern_system(self, name: Seq<char>) -> SymbolTableModel {
        if self.ids.contains_key(name) {
            self
        } else {
            SymbolTableModel {
                ids: self.ids.insert(name, SymbolId(self.system_next as u128)),
                system_next: self.system_next + 1,
                user_count: self.user_count,
            }
        }
    }

    /// Whether `k` more names can be interned.
    pub open spec fn has_room(self, k: nat) -> bool {
        self.system_next + self.user_count + k <= usize::MAX
    }

    /// The id that `name` has once it is interned as a user symbol.
    pub open spec fn symbol_of(self, name: Seq<char>) -> SymbolId {
        self.intern(name).ids[name]
    }
}

/// Maps names to ids.  A name keeps the id it was first given.
pub struct SymbolTable {
    forward: StringHashMap<SymbolId>,
    user_count: usize,
    system_next: usize,
}

impl View for SymbolTable {
    type V = SymbolTableModel;

    closed spec fn view(&self) -> SymbolTableModel {
        SymbolTableModel {
            ids: self.forward@,
            system_next: self.system_next as nat,
            user_count: self.user_count as nat,
        }
    }
}

impl SymbolTable {
    /// The invariant of the table.
    pub open spec fn wf(&self) -> bool {
        self@.wf()
    }

    /// An empty table.
    pub fn new() -> (r: Self)
        ensures
            r.wf(),
            r@ == SymbolTableModel::empty(),
    {
        let r = SymbolTable { forward: StringHashMap::new(), user_count: 0, system_next: 0 };
        assert(r@.ids.len() == 0);
        r
    }

    /// The id of `name`, if it has been interned.
    pub fn get(&self, name: &str) -> (r: Option<SymbolId>)
        ensures
            r == (if self@.ids.contains_key(name@) {
                Some(self@.ids[name@])
            } else {
                None
            }),
    {
        match self.forward.get(name) {
            Some(id) => Some(*id),
            None => None,
        }
    }

    /// How many system symbols have been handed out.
    pub fn system_len(&self) -> (r: usize)
        ensures
            r == self@.system_next,
    {
        self.system_next
    }

    /// Interns `name` in the system range and returns its id.  A name that is
    /// interned already keeps its id.
    pub fn insert_system_symbol(&mut self, name: &str) -> (r: SymbolId)
        requires
            old(self).wf(),
            old(self)@.system_next < USER_SYMBOL_START || old(self)@.ids.contains_key(name@),
        ensures
            final(self).wf(),
            final(self)@ == old(self)@.intern_system(name@),
            r == final(self)@.ids[name@],
    {
        broadcast use vstd::hash_map::group_hash_map_axioms;

        match self.forward.get(name) {
            Some(id) => *id,
            None => {
                let id = SymbolId(self.system_next as u128);
                let ghost before = self@;
                self.forward.insert(String::from_str(name), id);
                let n = self.forward.len();
                self.system_next = self.system_next + 1;
                proof {
                    assert(self@.ids == before.ids.insert(name@, id));
                    lemma_intern_system_wf(before, name@);
                }
                id
            },
        }
    }

    /// Interns `name` in the user range.  A name that is interned already
    /// keeps its id.
    pub fn insert_user_symbol(&mut self, name: &str)
        requires
            old(self).wf(),
        ensures
            final(self).wf(),
            final(self)@ == old(self)@.intern(name@),
    {
        let _ = self.insert_user_symbol_if_no_exist(name);
    }

    /// Interns `name` in the user range, unless it is interned already, and
    /// returns its id.
    pub fn insert_user_symbol_if_no_exist(&mut self, name: &str) -> (r: SymbolId)
        requires
            old(self).wf(),
        ensures
            final(self).wf(),
            final(self)@ == old(self)@.intern(name@),
            r == old(self)@.symbol_of(name@),
    {
        broadcast use vstd::hash_map::group_hash_map_axioms;

        match self.forward.get(name) {
            Some(id) => *id,
            None => {
                let id = SymbolId(USER_SYMBOL_START + self.user_count as u128);
                let ghost before = self@;
                self.forward.insert(String::from_str(name), id);
                let n = self.forward.len();
                self.user_count = self.user_count + 1;
                proof {
                    assert(self@.ids == before.ids.insert(name@, id));
                    lemma_intern_wf(before, name@);
                }
                id
            },
        }
    }
}

/// Interning a user symbol keeps the table well formed.
pub proof fn lemma_intern_wf(t: SymbolTableModel, name: Seq<char>)
    requires
        t.wf(),
        t.has_room(1) || t.ids.contains_key(name),
    ensures
        t.intern(name).wf(),
        t.intern(name).ids.contains_key(name),
        forall|n: Seq<char>| #[trigger]
            t.ids.contains_key(n) ==> t.intern(name).ids.contains_key(n) && t.intern(name).ids[n]
                == t.ids[n],
{
    if !t.ids.contains_key(name) {
        let u = t.intern(name);
        assert(u.ids.len() == t.ids.len() + 1);
    }
}

/// Interning a system symbol keeps the table well formed, while the system
/// range has room.
pub proof fn lemma_intern_system_wf(t: SymbolTableModel, name: Seq<char>)
    requires
        t.wf(),
        t.has_room(1) || t.ids.contains_key(name),
        t.system_next < USER_SYMBOL_START || t.ids.contains_key(name),
    ensures
        t.intern_system(name).wf(),
        t.intern_system(name).ids.contains_key(name),
{
    if !t.ids.contains_key(name) {
        let u = t.intern_system(name);
        assert(u.ids.len() == t.ids.len() + 1);
    }
}

/// Interning is stable and injective: a name that is interned again gets the
/// id it had, whatever was interned in between, and two different names never
/// get the same id.  The table must have room for the names involved.
pub proof fn lemma_interning_stable_and_injective(t: SymbolTableModel, s: Seq<char>, u: Seq<char>)
    requires
        t.wf(),
        t.has_room(3),
    ensures
        t.intern(s).symbol_of(s) == t.symbol_of(s),
        t.intern(s).intern(u).symbol_of(s) == t.symbol_of(s),
        s != u ==> t.intern(s).symbol_of(u) != t.symbol_of(s),
{
    lemma_intern_wf(t, s);
    lemma_intern_wf(t, u);
    lemma_intern_wf(t.intern(s), u);
    lemma_intern_wf(t.intern(s).intern(u), s);
}

} // verus!
