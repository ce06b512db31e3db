use vstd::prelude::*;
use std::collections::HashMap;
use crate::engine::graph::NodeId;

verus! {

broadcast use vstd::std_specs::hash::group_hash_axioms;

/// Whether every id in use lies below `next`, the id that is handed out next.
pub open spec fn ids_below<S>(nodes: Map<usize, S>, next: usize) -> bool {
    forall|k: usize| nodes.contains_key(k) ==> k < next
}

/// The graph's nodes by id, with the counter that hands out the ids. `S` is what the graph
/// keeps for each node.
#[verifier::reject_recursive_types(S)]
pub struct NodeTable<S> {
    nodes: HashMap<usize, S>,
    next_id: usize,
    wrapped: Ghost<bool>,
}

impl<S> View for NodeTable<S> {
    type V = Map<usize, S>;

    closed spec fn view(&self) -> Map<usize, S> {
        self.nodes@
    }
}

impl<S> NodeTable<S> {
    /// Until the counter has wrapped around, every id in use lies below it.
    #[verifier::type_invariant]
    spec fn ids_fresh(&self) -> bool {
        self.wrapped@ || ids_below(self.nodes@, self.next_id)
    }

    /// The id that the next insertion hands out.
    pub closed spec fn next(&self) -> usize {
        self.next_id
    }

    /// Whether the counter has passed `usize::MAX` and started again at 0.
    pub closed spec fn has_wrapped(&self) -> bool {
        self.wrapped@
    }

    pub fn new() -> (t: Self)
        ensures
            t@ == Map::<usize, S>::empty(),
            t.next() == 0,
            !t.has_wrapped(),
    {
        NodeTable { nodes: HashMap::new(), next_id: 0, wrapped: Ghost(false) }
    }

    /// Adds a node under the next id and returns that id. The counter wraps around after
    /// `usize::MAX`; until it does, every id handed out is new.
    pub fn insert_node(&mut self, slot: S) -> (id: NodeId)
        ensures
            id@ == old(self).next(),
            final(self).next() == vstd::wrapping::usize_specs::wrapping_add(old(self).next(), 1),
            final(self)@ == old(self)@.insert(id@, slot),
            final(self).has_wrapped() == (old(self).has_wrapped() || old(self).next() == usize::MAX),
            !old(self).has_wrapped() ==> !old(self)@.contains_key(id@),
    {
        proof {
            use_type_invariant(&*self);
        }
        let mut table: NodeTable<S> = NodeTable::new();
        std::mem::swap(self, &mut table);
        let NodeTable { mut nodes, next_id, wrapped } = table;
        let id: usize = next_id;
        let next: usize = next_id.wrapping_add(1);
        nodes.insert(id, slot);
        let ghost now_wrapped: bool = wrapped@ || next_id == usize::MAX;
        *self = NodeTable { nodes, next_id: next, wrapped: Ghost(now_wrapped) };
        NodeId::new(id)
    }

    /// Removes the node `node_id`, if there is one; the counter stays.
    pub fn delete_node(&mut self, node_id: NodeId) -> (removed: Option<S>)
        ensures
            final(self)@ == old(self)@.remove(node_id@),
            final(self).next() == old(self).next(),
            final(self).has_wrapped() == old(self).has_wrapped(),
            removed is Some <==> old(self)@.contains_key(node_id@),
            removed matches Some(s) ==> s == old(self)@[node_id@],
    {
        proof {
            use_type_invariant(&*self);
        }
        let mut table: NodeTable<S> = NodeTable::new();
        std::mem::swap(self, &mut table);
        let NodeTable { mut nodes, next_id, wrapped } = table;
        let key: usize = node_id.value();
        let removed = nodes.remove(&key);
        *self = NodeTable { nodes, next_id, wrapped };
        removed
    }

    /// What the graph keeps for the node `node_id`, or `None` where there is no such node.
    pub fn get(&self, node_id: NodeId) -> (r: Option<&S>)
        ensures
            r is Some <==> self@.contains_key(node_id@),
            r matches Some(s) ==> *s == self@[node_id@],
    {
        let key: usize = node_id.value();
        self.nodes.get(&key)
    }

    /// Whether there is a node `node_id`.
    pub fn contains(&self, node_id: NodeId) -> (b: bool)
        ensures
            b == self@.contains_key(node_id@),
    {
        let key: usize = node_id.value();
        self.nodes.contains_key(&key)
    }
}

/// A node found in the table is the one that was inserted under its id, until that id is
/// deleted; after the deletion the id is found no more (packets for it are dropped), and the
/// other nodes are untouched.
pub proof fn lemma_insert_then_delete<S>(nodes: Map<usize, S>, id: usize, slot: S, other: usize)
    requires
        other != id,
    ensures
        nodes.insert(id, slot).contains_key(id),
        nodes.insert(id, slot)[id] == slot,
        !nodes.insert(id, slot).remove(id).contains_key(id),
        nodes.insert(id, slot).remove(id).contains_key(other) == nodes.contains_key(other),
        nodes.contains_key(other) ==> nodes.insert(id, slot).remove(id)[other] == nodes[other],
{
}

/// Ids handed out one after another are all different, as long as the counter does not
/// wrap around: the table stays below its counter, and each insertion uses the counter.
pub proof fn lemma_ids_stay_fresh<S>(nodes: Map<usize, S>, next: usize, slot: S)
    requires
        ids_below(nodes, next),
        next < usize::MAX,
    ensures
        !nodes.contains_key(next),
        ids_below(nodes.insert(next, slot), (next + 1) as usize),
        forall|k: usize| ids_below(nodes.remove(k), next),
{
}

} // verus!
