//! The tree of the processes that descend from a traced child.
//!
//! The tree is a flat table from each process to its parent. The root is
//! the traced child itself and has no entry of its own.

use litemap::LiteMap;
use vstd::prelude::*;

verus! {

/// `litemap::LiteMap`: a map that keeps its entries in a sorted vector.
#[verifier::external_type_specification]
#[verifier::external_body]
#[verifier::reject_recursive_types(K)]
#[verifier::reject_recursive_types(V)]
#[verifier::reject_recursive_types(S)]
pub struct ExLiteMap<K: ?Sized, V: ?Sized, S>(LiteMap<K, V, S>);

/// The entries that a `LiteMap` from process ids to process ids holds.
pub uninterp spec fn lite_map_entries(table: LiteMap<i32, i32>) -> Map<i32, i32>;

/// The entries of a map that holds nothing.
pub open spec fn no_entries() -> Map<i32, i32> {
    Map::empty()
}

/// `LiteMap::new_vec` makes a map that holds nothing.
#[verifier::external_body]
fn lite_map_new() -> (table: LiteMap<i32, i32>)
    ensures
        lite_map_entries(table) == no_entries(),
{
    LiteMap::new_vec()
}

/// `LiteMap::get` finds the value of a key, where the map holds the key.
#[verifier::external_body]
fn lite_map_get(table: &LiteMap<i32, i32>, key: i32) -> (value: Option<i32>)
    ensures
        value == (if lite_map_entries(*table).contains_key(key) {
            Some(lite_map_entries(*table)[key])
        } else {
            None::<i32>
        }),
{
    table.get(&key).copied()
}

/// `LiteMap::insert` gives the key the value, in place of any value that
/// the key had, and returns the value that it had.
#[verifier::external_body]
fn lite_map_insert(table: &mut LiteMap<i32, i32>, key: i32, value: i32) -> (previous: Option<i32>)
    ensures
        lite_map_entries(*final(table)) == lite_map_entries(*old(table)).insert(key, value),
        previous == (if lite_map_entries(*old(table)).contains_key(key) {
            Some(lite_map_entries(*old(table))[key])
        } else {
            None::<i32>
        }),
{
    table.insert(key, value)
}

/// `LiteMap::remove` takes the key out of the map, and returns the value
/// that it had.
#[verifier::external_body]
fn lite_map_remove(table: &mut LiteMap<i32, i32>, key: i32) -> (previous: Option<i32>)
    ensures
        lite_map_entries(*final(table)) == lite_map_entries(*old(table)).remove(key),
        previous == (if lite_map_entries(*old(table)).contains_key(key) {
            Some(lite_map_entries(*old(table))[key])
        } else {
            None::<i32>
        }),
{
    table.remove(&key)
}

/// `LiteMap::keys` visits every key of the map once.
#[verifier::external_body]
fn lite_map_keys(table: &LiteMap<i32, i32>) -> (keys: Vec<i32>)
    ensures
        keys@.to_set() == lite_map_entries(*table).dom(),
{
    table.keys().copied().collect()
}

/// A process tree as a mathematical value: the root, and the parent of
/// every other process of the tree.
pub struct ProcessTree {
    pub root: i32,
    pub parents: Map<i32, i32>,
}

impl ProcessTree {
    /// Whether `pid` is a process of the tree.
    pub open spec fn contains(self, pid: i32) -> bool {
        pid == self.root || self.parents.contains_key(pid)
    }

    /// Whether `child` is a process of the tree whose parent is `parent`.
    pub open spec fn is_child_of(self, child: i32, parent: i32) -> bool {
        self.parents.contains_key(child) && self.parents[child] == parent
    }
}

/// The tree of the processes that descend from a traced child.
pub struct ProcessInfo {
    pid: i32,
    parents: LiteMap<i32, i32>,
    depths: Ghost<Map<i32, nat>>,
}

impl View for ProcessInfo {
    type V = ProcessTree;

    closed spec fn view(&self) -> ProcessTree {
        ProcessTree { root: self.pid, parents: lite_map_entries(self.parents) }
    }
}

impl ProcessInfo {
    /// The number of steps from `pid` up to the root.
    pub closed spec fn depth(&self, pid: i32) -> nat {
        self.depths@[pid]
    }

    /// Whether the tree is in order: the root has no parent, the parent of
    /// every process is a process of the tree, and every process is one
    /// step further from the root than its parent, so that no process is
    /// its own ancestor.
    pub open spec fn wf(&self) -> bool {
        &&& !self@.parents.contains_key(self@.root)
        &&& self.depth(self@.root) == 0
        &&& forall|pid: i32|
            self@.parents.contains_key(pid) ==> self@.contains(#[trigger] self@.parents[pid])
                && self.depth(pid) == self.depth(self@.parents[pid]) + 1
    }

    /// Whether `pid` is `ancestor` or descends from it.
    pub open spec fn descends(&self, pid: i32, ancestor: i32) -> bool
        decreases self.depth(pid),
    {
        if pid == ancestor {
            true
        } else if !self@.parents.contains_key(pid) {
            false
        } else if self.depth(self@.parents[pid]) < self.depth(pid) {
            self.descends(self@.parents[pid], ancestor)
        } else {
            false
        }
    }

    /// The tree of the process `pid` alone.
    pub fn new(pid: i32) -> (tree: ProcessInfo)
        ensures
            tree.wf(),
            tree@ == (ProcessTree { root: pid, parents: Map::empty() }),
    {
        ProcessInfo {
            pid,
            parents: lite_map_new(),
            depths: Ghost(Map::<i32, nat>::empty().insert(pid, 0nat)),
        }
    }

    /// The root of the tree.
    pub fn get_pid(&self) -> (pid: i32)
        ensures
            pid == self@.root,
    {
        self.pid
    }

    /// The parent of `pid`, where `pid` is a process of the tree other than
    /// the root.
    pub fn get_parent(&self, pid: i32) -> (parent: Option<i32>)
        ensures
            parent == (if self@.parents.contains_key(pid) {
                Some(self@.parents[pid])
            } else {
                None::<i32>
            }),
    {
        lite_map_get(&self.parents, pid)
    }

    /// Whether `pid` is a process of the tree.
    pub fn get_process(&self, pid: i32) -> (found: bool)
        ensures
            found == self@.contains(pid),
    {
        pid == self.pid || lite_map_get(&self.parents, pid).is_some()
    }

    /// Whether `child_pid` is a process of the tree whose parent is
    /// `parent_pid`.
    pub fn get_child(&self, parent_pid: i32, child_pid: i32) -> (found: bool)
        ensures
            found == self@.is_child_of(child_pid, parent_pid),
    {
        match lite_map_get(&self.parents, child_pid) {
            Some(parent) => parent == parent_pid,
            None => false,
        }
    }

    /// Adds the process `child_pid` to the tree, as a child of
    /// `parent_pid`. The parent is a process of the tree, and the child is
    /// not one yet.
    pub fn add_child(&mut self, parent_pid: i32, child_pid: i32)
        requires
            old(self).wf(),
            old(self)@.contains(parent_pid),
            !old(self)@.contains(child_pid),
        ensures
            final(self).wf(),
            final(self)@ == (ProcessTree {
                parents: old(self)@.parents.insert(child_pid, parent_pid),
                ..old(self)@
            }),
    {
        let _ = lite_map_insert(&mut self.parents, child_pid, parent_pid);
        proof {
            let depth = (old(self).depth(parent_pid) + 1) as nat;
            self.depths = Ghost(old(self).depths@.insert(child_pid, depth));
        }
        assert forall|pid: i32| self@.parents.contains_key(pid) implies self@.contains(
            #[trigger] self@.parents[pid],
        ) && self.depth(pid) == self.depth(self@.parents[pid]) + 1 by {
            if pid != child_pid {
                assert(old(self)@.parents.contains_key(pid));
                assert(old(self)@.contains(old(self)@.parents[pid]));
            }
        }
    }

    /// Whether `pid` is `ancestor` or descends from it.
    pub fn is_descendant(&self, pid: i32, ancestor: i32) -> (found: bool)
        requires
            self.wf(),
        ensures
            found == self.descends(pid, ancestor),
    {
        let mut current: i32 = pid;
        loop
            invariant
                self.wf(),
                self.descends(pid, ancestor) == self.descends(current, ancestor),
            decreases self.depth(current),
        {
            if current == ancestor {
                return true;
            }
            match lite_map_get(&self.parents, current) {
                Some(parent) => {
                    current = parent;
                },
                None => {
                    return false;
                },
            }
        }
    }

    /// Takes the child `child_pid` of `parent_pid` out of the tree, and
    /// with it every process that descends from it.
    pub fn delete_child(&mut self, parent_pid: i32, child_pid: i32)
        requires
            old(self).wf(),
            old(self)@.is_child_of(child_pid, parent_pid),
        ensures
            final(self).wf(),
            final(self)@.root == old(self)@.root,
            forall|pid: i32|
                final(self)@.parents.contains_key(pid) == (old(self)@.parents.contains_key(pid)
                    && !old(self).descends(pid, child_pid)),
            forall|pid: i32|
                final(self)@.parents.contains_key(pid) ==> final(self)@.parents[pid]
                    == old(self)@.parents[pid],
            !final(self)@.contains(child_pid),
    {
        let keys = lite_map_keys(&self.parents);
        let mut doomed: Vec<i32> = Vec::new();
        let mut i: usize = 0;
        while i < keys.len()
            invariant
                i <= keys@.len(),
                *self == *old(self),
                self.wf(),
                keys@.to_set() == self@.parents.dom(),
                forall|pid: i32|
                    doomed@.contains(pid) ==> self@.parents.contains_key(pid) && self.descends(
                        pid,
                        child_pid,
                    ),
                forall|j: int|
                    0 <= j < i && self.descends(#[trigger] keys@[j], child_pid)
                        ==> doomed@.contains(keys@[j]),
            decreases keys@.len() - i,
        {
            let key: i32 = keys[i];
            assert(keys@.to_set().contains(keys@[i as int]));
            if self.is_descendant(key, child_pid) {
                let ghost before = doomed@;
                doomed.push(key);
                assert(doomed@[before.len() as int] == key);
                assert forall|pid: i32| doomed@.contains(pid) implies self@.parents.contains_key(
                    pid,
                ) && self.descends(pid, child_pid) by {
                    let at = choose|at: int| 0 <= at < doomed@.len() && doomed@[at] == pid;
                    if at < before.len() {
                        assert(before[at] == pid);
                        assert(before.contains(pid));
                    }
                }
                assert forall|j: int|
                    0 <= j <= i && self.descends(
                        #[trigger] keys@[j],
                        child_pid,
                    ) implies doomed@.contains(keys@[j]) by {
                    if j < i {
                        assert(before.contains(keys@[j]));
                        let at = choose|at: int| 0 <= at < before.len() && before[at] == keys@[j];
                        assert(doomed@[at] == keys@[j]);
                    }
                }
            }
            i += 1;
        }
        assert forall|pid: i32|
            doomed@.contains(pid) == (self@.parents.contains_key(pid) && self.descends(
                pid,
                child_pid,
            )) by {
            if self@.parents.contains_key(pid) && self.descends(pid, child_pid) {
                assert(keys@.to_set().contains(pid));
                let j = choose|j: int| 0 <= j < keys@.len() && keys@[j] == pid;
                assert(self.descends(keys@[j], child_pid));
            }
        }
        let mut k: usize = 0;
        while k < doomed.len()
            invariant
                k <= doomed@.len(),
                self.pid == old(self).pid,
                self.depths == old(self).depths,
                forall|pid: i32|
                    self@.parents.contains_key(pid) == (old(self)@.parents.contains_key(pid) && !(
                    exists|j: int| 0 <= j < k && doomed@[j] == pid)),
                forall|pid: i32|
                    self@.parents.contains_key(pid) ==> self@.parents[pid] == old(self)@.parents[pid],
            decreases doomed@.len() - k,
        {
            let _ = lite_map_remove(&mut self.parents, doomed[k]);
            k += 1;
        }
        proof {
            assert forall|pid: i32|
                self@.parents.contains_key(pid) == (old(self)@.parents.contains_key(pid)
                && !old(self).descends(pid, child_pid)) by {
                if old(self)@.parents.contains_key(pid) && old(self).descends(pid, child_pid) {
                    assert(doomed@.contains(pid));
                }
                if exists|j: int| 0 <= j < k && doomed@[j] == pid {
                    assert(doomed@.contains(pid));
                }
            }
            assert forall|pid: i32| self@.parents.contains_key(pid) implies self@.contains(
                #[trigger] self@.parents[pid],
            ) && self.depth(pid) == self.depth(self@.parents[pid]) + 1 by {
                let parent = old(self)@.parents[pid];
                assert(old(self)@.contains(parent));
                if parent != self@.root {
                    assert(!old(self).descends(pid, child_pid));
                    assert(!old(self).descends(parent, child_pid));
                }
            }
        }
    }
}

/// What it is to descend: every process descends from itself, a child
/// descends from its parent, a process other than the ancestor descends
/// from it exactly when its parent does, and the root descends from nobody
/// but itself.
pub proof fn lemma_descends(tree: ProcessInfo, pid: i32, ancestor: i32)
    requires
        tree.wf(),
    ensures
        tree.descends(ancestor, ancestor),
        tree@.is_child_of(pid, ancestor) ==> tree.descends(pid, ancestor),
        tree@.parents.contains_key(pid) && pid != ancestor ==> tree.descends(pid, ancestor)
            == tree.descends(tree@.parents[pid], ancestor),
        pid == tree@.root && pid != ancestor ==> !tree.descends(pid, ancestor),
{
    if tree@.is_child_of(pid, ancestor) && pid != ancestor {
        assert(tree.descends(tree@.parents[pid], ancestor));
    }
}

} // verus!
