//! `HeaderBlock`, `PrimitiveBlock` and `PrimitiveGroup`s

use vstd::prelude::*;

use crate::dense::{
    lemma_dense_next_model, spec_dense_iter_wf, spec_dense_len, spec_dense_next,
    spec_dense_run_start, spec_kv_pos_at, DenseData, DenseNodeIter,
};
use crate::elements::{prefix_sum64, Element, Node, NodeData, Relation, RelationData, Way, WayData};
use crate::error::{err_index_out_of_bounds, new_error, ErrorKind, Result};
use crate::wire::utf8_to_str;

verus! {

/// A `HeaderBlock`. It contains metadata about following `PrimitiveBlock`s.
#[derive(Clone, Debug)]
pub struct HeaderBlock {
    pub required_features: Vec<String>,
    pub optional_features: Vec<String>,
}

/// The stored form of one group of elements.
#[derive(Clone, Debug)]
pub struct PrimitiveGroupData {
    pub nodes: Vec<NodeData>,
    pub dense: DenseData,
    pub ways: Vec<WayData>,
    pub relations: Vec<RelationData>,
}

/// A `PrimitiveBlock`. It contains a stringtable, a sequence of groups, and
/// the coordinate and date scaling parameters shared by all its elements.
#[derive(Clone, Debug)]
pub struct PrimitiveBlock {
    pub stringtable: Vec<Vec<u8>>,
    pub groups_data: Vec<PrimitiveGroupData>,
    pub granularity: i32,
    pub lat_offset: i64,
    pub lon_offset: i64,
    pub date_granularity: i32,
}


impl HeaderBlock {
    /// Returns a list of required features that a parser needs to implement
    /// to parse the following `PrimitiveBlock`s.
    pub fn required_features(&self) -> (r: &[String])
        ensures
            r.deep_view() == self@.required_features,
    {
        self.required_features.as_slice()
    }

    /// Returns a list of optional features that a parser can choose to
    /// ignore.
    pub fn optional_features(&self) -> (r: &[String])
        ensures
            r.deep_view() == self@.optional_features,
    {
        self.optional_features.as_slice()
    }
}

/// Exactly how a stringtable lookup at `index` must come out: the decoded
/// string when the index is in range and the bytes are UTF-8, the
/// out-of-bounds error when it is not in range, and the UTF-8 error when
/// the bytes are not.
pub open spec fn spec_resolution<'a>(table: Seq<Seq<u8>>, index: int, r: Result<&'a str>) -> bool {
    match r {
        Ok(s) => 0 <= index < table.len() && vstd::utf8::valid_utf8(table[index]) && s@
            == vstd::utf8::decode_utf8(table[index]),
        Err(e) => (index >= table.len() && (e@ matches ErrorKind::StringtableIndexOutOfBounds {
            index: j,
        } && j == index)) || (0 <= index < table.len() && !vstd::utf8::valid_utf8(table[index])
            && (e@ matches ErrorKind::StringtableUtf8 { index: j } && j == index)),
    }
}

/// Resolves an index into a block's stringtable: fails when the index is
/// out of range or the bytes there are not valid UTF-8, and never panics.
/// Such a failure spoils only this lookup; the block stays usable.
pub fn str_from_stringtable<'a>(block: &'a PrimitiveBlock, index: usize) -> (r: Result<&'a str>)
    ensures
        spec_resolution(block@.stringtable, index as int, r),
{
    if index < block.stringtable.len() {
        proof {
            assert(block@.stringtable[index as int] =~= block.stringtable@[index as int]@);
        }
        match utf8_to_str(&block.stringtable[index]) {
            Some(s) => Ok(s),
            None => Err(new_error(ErrorKind::StringtableUtf8 { index })),
        }
    } else {
        err_index_out_of_bounds(index)
    }
}

impl PrimitiveBlock {
    /// Returns an iterator over the elements in this `PrimitiveBlock`.
    pub fn elements(&self) -> (r: BlockElementsIter<'_>)
        ensures
            r.block == self && r.state == ElementsIterState::Group && r.group_idx == 0
                && r.elem_idx == 0 && r.dense_iter is None,
            spec_eiter_wf(r),
            spec_eiter_emitted(r) == 0,
    {
        BlockElementsIter {
            block: self,
            state: ElementsIterState::Group,
            group_idx: 0,
            elem_idx: 0,
            dense_iter: None,
        }
    }

    /// Returns an iterator over the groups in this `PrimitiveBlock`.
    pub fn groups(&self) -> (r: GroupIter<'_>)
        ensures
            r.block == self && r.pos == 0,
    {
        GroupIter { block: self, pos: 0 }
    }

    /// Calls the given closure on each element, in stored group order and,
    /// within a group, dense nodes first, then nodes, ways and relations.
    pub fn for_each_element<'a, F: Fn(Element<'a>)>(&'a self, f: F)
        requires
            forall|e: Element<'a>| #[trigger] call_requires(f, (e,)),
    {
        let ghost blk = self@;
        let ngroups = self.groups_data.len();
        let mut gi: usize = 0;
        while gi < ngroups
            invariant
                ngroups == self.groups_data@.len(),
                forall|e: Element<'a>| #[trigger] call_requires(f, (e,)),
            decreases ngroups - gi,
        {
            let group = &self.groups_data[gi];
            let mut dit = DenseNodeIter::new(self, &group.dense);
            loop
                invariant
                    dit.dense == &group.dense,
                    forall|e: Element<'a>| #[trigger] call_requires(f, (e,)),
                decreases spec_dense_len(dit.dense@) - dit.idx,
            {
                match dit.next() {
                    Some(dnode) => f(Element::DenseNode(dnode)),
                    None => { break ; },
                }
            }
            let nnodes = group.nodes.len();
            let mut i: usize = 0;
            while i < nnodes
                invariant
                    nnodes == group.nodes@.len(),
                    forall|e: Element<'a>| #[trigger] call_requires(f, (e,)),
                decreases nnodes - i,
            {
                f(Element::Node(Node::new(self, &group.nodes[i])));
                i = i + 1;
            }
            let nways = group.ways.len();
            let mut i: usize = 0;
            while i < nways
                invariant
                    nways == group.ways@.len(),
                    forall|e: Element<'a>| #[trigger] call_requires(f, (e,)),
                decreases nways - i,
            {
                f(Element::Way(Way::new(self, &group.ways[i])));
                i = i + 1;
            }
            let nrels = group.relations.len();
            let mut i: usize = 0;
            while i < nrels
                invariant
                    nrels == group.relations@.len(),
                    forall|e: Element<'a>| #[trigger] call_requires(f, (e,)),
                decreases nrels - i,
            {
                f(Element::Relation(Relation::new(self, &group.relations[i])));
                i = i + 1;
            }
            gi = gi + 1;
        }
    }

    /// Returns the raw stringtable. Elements in a `PrimitiveBlock` do not
    /// store strings themselves; instead, they just store indices into the
    /// stringtable. By convention, the contained strings are UTF-8 encoded
    /// but it is not safe to assume that.
    pub fn raw_stringtable(&self) -> (r: &[Vec<u8>])
        ensures
            r.deep_view() == self@.stringtable,
    {
        self.stringtable.as_slice()
    }
}

/// A `PrimitiveGroup` contains a batch of elements.
#[derive(Clone, Debug)]
pub struct PrimitiveGroup<'a> {
    /// The block the group belongs to.
    pub block: &'a PrimitiveBlock,
    /// The stored group.
    pub group: &'a PrimitiveGroupData,
}

impl<'a> PrimitiveGroup<'a> {
    /// Returns an iterator over the nodes in this group.
    pub fn nodes(&self) -> (r: GroupNodeIter<'a>)
        ensures
            r.block == self.block && r.nodes == &self.group.nodes && r.pos == 0,
    {
        GroupNodeIter { block: self.block, nodes: &self.group.nodes, pos: 0 }
    }

    /// Returns an iterator over the dense nodes in this group.
    pub fn dense_nodes(&self) -> (r: DenseNodeIter<'a>)
        ensures
            r.block == self.block && r.dense == &self.group.dense && r.idx == 0 && r.run
                == spec_dense_run_start(),
            spec_dense_iter_wf(r),
    {
        DenseNodeIter::new(self.block, &self.group.dense)
    }

    /// Returns an iterator over the ways in this group.
    pub fn ways(&self) -> (r: GroupWayIter<'a>)
        ensures
            r.block == self.block && r.ways == &self.group.ways && r.pos == 0,
    {
        GroupWayIter { block: self.block, ways: &self.group.ways, pos: 0 }
    }

    /// Returns an iterator over the relations in this group.
    pub fn relations(&self) -> (r: GroupRelationIter<'a>)
        ensures
            r.block == self.block && r.relations == &self.group.relations && r.pos == 0,
    {
        GroupRelationIter { block: self.block, relations: &self.group.relations, pos: 0 }
    }
}

/// An iterator over the groups in a `PrimitiveBlock`.
#[derive(Clone, Debug)]
pub struct GroupIter<'a> {
    /// The block whose groups are walked.
    pub block: &'a PrimitiveBlock,
    /// How many groups have been consumed.
    pub pos: usize,
}

impl<'a> GroupIter<'a> {
    /// Yields the next group.
    pub fn next(&mut self) -> (r: Option<PrimitiveGroup<'a>>)
        ensures
            final(self).block == old(self).block,
            old(self).pos < old(self).block@.groups.len() ==> final(self).pos == old(self).pos + 1
                && (r matches Some(g) && g.block == old(self).block && g.group@ == old(self).block@.groups[old(self).pos as int]),
            old(self).pos >= old(self).block@.groups.len() ==> r is None && *final(self) == *old(self),
    {
        if self.pos < self.block.groups_data.len() {
            let g = PrimitiveGroup { block: self.block, group: &self.block.groups_data[self.pos] };
            self.pos = self.pos + 1;
            Some(g)
        } else {
            None
        }
    }

    /// Returns how many groups are left.
    pub fn len(&self) -> (r: usize)
        ensures
            r == if self.pos <= self.block@.groups.len() {
                self.block@.groups.len() - self.pos
            } else {
                0
            },
    {
        if self.pos <= self.block.groups_data.len() {
            self.block.groups_data.len() - self.pos
        } else {
            0
        }
    }
}

/// An iterator over the nodes in a `PrimitiveGroup`.
#[derive(Clone, Debug)]
pub struct GroupNodeIter<'a> {
    /// The block the group belongs to.
    pub block: &'a PrimitiveBlock,
    /// The stored node column of the group.
    pub nodes: &'a Vec<NodeData>,
    /// How many nodes have been consumed.
    pub pos: usize,
}

impl<'a> GroupNodeIter<'a> {
    /// Yields the next node.
    pub fn next(&mut self) -> (r: Option<Node<'a>>)
        ensures
            final(self).block == old(self).block && final(self).nodes == old(self).nodes,
            old(self).pos < old(self).nodes@.len() ==> final(self).pos == old(self).pos + 1 && (
            r matches Some(n) && n.block == old(self).block && *n.osmnode == old(self).nodes@[old(self).pos as int]),
            old(self).pos >= old(self).nodes@.len() ==> r is None && *final(self) == *old(self),
    {
        if self.pos < self.nodes.len() {
            let n = Node::new(self.block, &self.nodes[self.pos]);
            self.pos = self.pos + 1;
            Some(n)
        } else {
            None
        }
    }

    /// Returns how many nodes are left.
    pub fn len(&self) -> (r: usize)
        ensures
            r == if self.pos <= self.nodes@.len() {
                self.nodes@.len() - self.pos
            } else {
                0
            },
    {
        if self.pos <= self.nodes.len() {
            self.nodes.len() - self.pos
        } else {
            0
        }
    }
}

/// An iterator over the ways in a `PrimitiveGroup`.
#[derive(Clone, Debug)]
pub struct GroupWayIter<'a> {
    /// The block the group belongs to.
    pub block: &'a PrimitiveBlock,
    /// The stored way column of the group.
    pub ways: &'a Vec<WayData>,
    /// How many ways have been consumed.
    pub pos: usize,
}

impl<'a> GroupWayIter<'a> {
    /// Yields the next way.
    pub fn next(&mut self) -> (r: Option<Way<'a>>)
        ensures
            final(self).block == old(self).block && final(self).ways == old(self).ways,
            old(self).pos < old(self).ways@.len() ==> final(self).pos == old(self).pos + 1 && (
            r matches Some(w) && w.block == old(self).block && *w.osmway == old(self).ways@[old(self).pos as int]),
            old(self).pos >= old(self).ways@.len() ==> r is None && *final(self) == *old(self),
    {
        if self.pos < self.ways.len() {
            let w = Way::new(self.block, &self.ways[self.pos]);
            self.pos = self.pos + 1;
            Some(w)
        } else {
            None
        }
    }

    /// Returns how many ways are left.
    pub fn len(&self) -> (r: usize)
        ensures
            r == if self.pos <= self.ways@.len() {
                self.ways@.len() - self.pos
            } else {
                0
            },
    {
        if self.pos <= self.ways.len() {
            self.ways.len() - self.pos
        } else {
            0
        }
    }
}

/// An iterator over the relations in a `PrimitiveGroup`.
#[derive(Clone, Debug)]
pub struct GroupRelationIter<'a> {
    /// The block the group belongs to.
    pub block: &'a PrimitiveBlock,
    /// The stored relation column of the group.
    pub relations: &'a Vec<RelationData>,
    /// How many relations have been consumed.
    pub pos: usize,
}

impl<'a> GroupRelationIter<'a> {
    /// Yields the next relation.
    pub fn next(&mut self) -> (r: Option<Relation<'a>>)
        ensures
            final(self).block == old(self).block && final(self).relations == old(self).relations,
            old(self).pos < old(self).relations@.len() ==> final(self).pos == old(self).pos + 1
                && (r matches Some(rel) && rel.block == old(self).block && *rel.osmrel == old(self).relations@[old(self).pos as int]),
            old(self).pos >= old(self).relations@.len() ==> r is None && *final(self) == *old(self),
    {
        if self.pos < self.relations.len() {
            let rel = Relation::new(self.block, &self.relations[self.pos]);
            self.pos = self.pos + 1;
            Some(rel)
        } else {
            None
        }
    }

    /// Returns how many relations are left.
    pub fn len(&self) -> (r: usize)
        ensures
            r == if self.pos <= self.relations@.len() {
                self.relations@.len() - self.pos
            } else {
                0
            },
    {
        if self.pos <= self.relations.len() {
            self.relations.len() - self.pos
        } else {
            0
        }
    }
}

/// Which shape of a group's elements an elements iterator is walking.
#[derive(Clone, Copy, Debug, PartialEq, Eq, Structural)]
pub enum ElementsIterState {
    /// Ready to start the next group.
    Group,
    /// Walking the group's dense node run.
    DenseNode,
    /// Walking the group's node column.
    Node,
    /// Walking the group's way column.
    Way,
    /// Walking the group's relation column.
    Relation,
}

/// An iterator over the elements in a `PrimitiveBlock`: a state machine
/// that walks the groups in stored order and, within each group, the dense
/// nodes first, then nodes, ways and relations, skipping absent shapes.
#[derive(Clone, Debug)]
pub struct BlockElementsIter<'a> {
    /// The block whose elements are walked.
    pub block: &'a PrimitiveBlock,
    /// Which shape is being walked.
    pub state: ElementsIterState,
    /// The current group; in the `Group` state, the next group to start.
    pub group_idx: usize,
    /// The position in the current shape's column.
    pub elem_idx: usize,
    /// The dense node iterator of the current group, once one has started.
    pub dense_iter: Option<DenseNodeIter<'a>>,
}

impl<'a> BlockElementsIter<'a> {
    /// One transition of the state machine: either yields
    /// `Some(Some(element))`, or reports the end of all groups with
    /// `Some(None)`, or advances the state and yields `None` so the caller
    /// steps again.
    #[inline]
    pub fn step(&mut self) -> (r: Option<Option<Element<'a>>>)
        ensures
            final(self).block == old(self).block,
            ({
                let blk = old(self).block;
                let gi = old(self).group_idx as int;
                old(self).state != ElementsIterState::Group && gi >= blk@.groups.len() ==> r
                    == Some(None::<Element<'a>>) && *final(self) == *old(self)
            }),
            ({
                let blk = old(self).block;
                let gi = old(self).group_idx as int;
                gi < blk@.groups.len() || old(self).state == ElementsIterState::Group ==> match old(self).state {
                    ElementsIterState::Group => if gi < blk@.groups.len() {
                        &&& r is None
                        &&& final(self).state == ElementsIterState::DenseNode
                        &&& final(self).group_idx == gi && final(self).elem_idx == 0
                        &&& final(self).dense_iter matches Some(it) && it.block == blk && it.idx
                            == 0 && it.run == spec_dense_run_start() && it.dense@
                            == blk@.groups[gi].dense
                    } else {
                        r == Some(None::<Element<'a>>) && *final(self) == *old(self)
                    },
                    ElementsIterState::DenseNode => match old(self).dense_iter {
                        Some(pre) => if pre.idx < spec_dense_len(pre.dense@) {
                            &&& r matches Some(e2) && e2 matches Some(e3) && e3 matches
                                Element::DenseNode(node) && (final(self).dense_iter matches Some(
                                post,
                            ) && spec_dense_next(pre, post, Some(node)))
                            &&& final(self).state == old(self).state && final(self).group_idx == gi
                                && final(self).elem_idx == old(self).elem_idx
                        } else {
                            &&& r is None
                            &&& final(self).state == ElementsIterState::Node && final(self).group_idx == gi && final(self).elem_idx == 0 && final(self).dense_iter == old(self).dense_iter
                        },
                        None => r is None && final(self).state == ElementsIterState::Node && final(self).group_idx == gi && final(self).elem_idx == 0 && final(self).dense_iter
                            is None,
                    },
                    ElementsIterState::Node => if gi < blk@.groups.len() && old(self).elem_idx
                        < blk@.groups[gi].nodes.len() {
                        &&& r matches Some(e2) && e2 matches Some(e3) && e3 matches Element::Node(
                            n,
                        ) && n.block == blk && n.osmnode@ == blk@.groups[gi].nodes[old(self).elem_idx as int]
                        &&& final(self).state == old(self).state && final(self).group_idx == gi
                            && final(self).elem_idx == old(self).elem_idx + 1 && final(self).dense_iter == old(self).dense_iter
                    } else {
                        &&& r is None
                        &&& final(self).state == ElementsIterState::Way && final(self).group_idx
                            == gi && final(self).elem_idx == 0 && final(self).dense_iter == old(self).dense_iter
                    },
                    ElementsIterState::Way => if gi < blk@.groups.len() && old(self).elem_idx
                        < blk@.groups[gi].ways.len() {
                        &&& r matches Some(e2) && e2 matches Some(e3) && e3 matches Element::Way(w)
                            && w.block == blk && w.osmway@ == blk@.groups[gi].ways[old(self).elem_idx as int]
                        &&& final(self).state == old(self).state && final(self).group_idx == gi
                            && final(self).elem_idx == old(self).elem_idx + 1 && final(self).dense_iter == old(self).dense_iter
                    } else {
                        &&& r is None
                        &&& final(self).state == ElementsIterState::Relation && final(self).group_idx == gi && final(self).elem_idx == 0 && final(self).dense_iter
                            == old(self).dense_iter
                    },
                    ElementsIterState::Relation => if gi < blk@.groups.len() && old(self).elem_idx
                        < blk@.groups[gi].relations.len() {
                        &&& r matches Some(e2) && e2 matches Some(e3) && e3 matches
                            Element::Relation(rel) && rel.block == blk && rel.osmrel@
                            == blk@.groups[gi].relations[old(self).elem_idx as int]
                        &&& final(self).state == old(self).state && final(self).group_idx == gi
                            && final(self).elem_idx == old(self).elem_idx + 1 && final(self).dense_iter == old(self).dense_iter
                    } else {
                        &&& r is None
                        &&& final(self).state == ElementsIterState::Group && final(self).group_idx
                            == gi + 1 && final(self).elem_idx == 0 && final(self).dense_iter
                            == old(self).dense_iter
                    },
                }
            }),
    {
        let blk = self.block;
        if !matches!(self.state, ElementsIterState::Group) && self.group_idx
            >= blk.groups_data.len() {
            return Some(None);
        }
        match self.state {
            ElementsIterState::Group => {
                if self.group_idx < blk.groups_data.len() {
                    let group = &blk.groups_data[self.group_idx];
                    self.dense_iter = Some(DenseNodeIter::new(blk, &group.dense));
                    self.elem_idx = 0;
                    self.state = ElementsIterState::DenseNode;
                    None
                } else {
                    Some(None)
                }
            },
            ElementsIterState::DenseNode => {
                let stepped = match &mut self.dense_iter {
                    Some(it) => it.next(),
                    None => None,
                };
                match stepped {
                    Some(dnode) => Some(Some(Element::DenseNode(dnode))),
                    None => {
                        self.state = ElementsIterState::Node;
                        self.elem_idx = 0;
                        None
                    },
                }
            },
            ElementsIterState::Node => {
                if self.group_idx < blk.groups_data.len() && self.elem_idx < blk.groups_data[
                    self.group_idx].nodes.len() {
                    let n = Node::new(blk, &blk.groups_data[self.group_idx].nodes[self.elem_idx]);
                    self.elem_idx = self.elem_idx + 1;
                    Some(Some(Element::Node(n)))
                } else {
                    self.state = ElementsIterState::Way;
                    self.elem_idx = 0;
                    None
                }
            },
            ElementsIterState::Way => {
                if self.group_idx < blk.groups_data.len() && self.elem_idx < blk.groups_data[
                    self.group_idx].ways.len() {
                    let w = Way::new(blk, &blk.groups_data[self.group_idx].ways[self.elem_idx]);
                    self.elem_idx = self.elem_idx + 1;
                    Some(Some(Element::Way(w)))
                } else {
                    self.state = ElementsIterState::Relation;
                    self.elem_idx = 0;
                    None
                }
            },
            ElementsIterState::Relation => {
                if self.group_idx < blk.groups_data.len() && self.elem_idx < blk.groups_data[
                    self.group_idx].relations.len() {
                    let rel = Relation::new(
                        blk,
                        &blk.groups_data[self.group_idx].relations[self.elem_idx],
                    );
                    self.elem_idx = self.elem_idx + 1;
                    Some(Some(Element::Relation(rel)))
                } else {
                    self.state = ElementsIterState::Group;
                    self.group_idx = self.group_idx + 1;
                    self.elem_idx = 0;
                    None
                }
            },
        }
    }

    /// Yields the next element, stepping the state machine until it either
    /// produces one or runs out of groups. Exactly one element is yielded
    /// per pull until every group's elements are out, so the flattened
    /// sequence has as many elements as the groups hold together.
    pub fn next(&mut self) -> (r: Option<Element<'a>>)
        requires
            spec_eiter_wf(*old(self)),
        ensures
            final(self).block == old(self).block,
            spec_eiter_wf(*final(self)),
            r is Some ==> spec_eiter_emitted(*final(self)) == spec_eiter_emitted(*old(self)) + 1,
            r is None ==> spec_eiter_emitted(*final(self)) == spec_eiter_emitted(*old(self))
                && spec_eiter_emitted(*final(self)) == spec_groups_count(
                old(self).block@.groups,
                old(self).block@.groups.len() as int,
            ) && final(self).group_idx >= old(self).block@.groups.len(),
            r matches Some(e) ==> ({
                let blk = old(self).block@;
                let fgi = final(self).group_idx as int;
                match e {
                    Element::Node(n) => final(self).state == ElementsIterState::Node && 1 <= final(self).elem_idx && n.block == old(self).block && n.osmnode@
                        == blk.groups[fgi].nodes[final(self).elem_idx - 1],
                    Element::Way(w) => final(self).state == ElementsIterState::Way && 1 <= final(self).elem_idx && w.block == old(self).block && w.osmway@
                        == blk.groups[fgi].ways[final(self).elem_idx - 1],
                    Element::Relation(rel) => final(self).state == ElementsIterState::Relation && 1
                        <= final(self).elem_idx && rel.block == old(self).block && rel.osmrel@
                        == blk.groups[fgi].relations[final(self).elem_idx - 1],
                    Element::DenseNode(d) => final(self).state == ElementsIterState::DenseNode && (
                    final(self).dense_iter matches Some(di) && 1 <= di.idx && d.block == old(self).block && d.dense@ == blk.groups[fgi].dense && d.id == prefix_sum64(
                        blk.groups[fgi].dense.ids,
                        di.idx as int,
                    ) && d.lat == prefix_sum64(blk.groups[fgi].dense.lats, di.idx as int) && d.lon
                        == prefix_sum64(blk.groups[fgi].dense.lons, di.idx as int) && d.kv_start
                        == spec_kv_pos_at(blk.groups[fgi].dense.keys_vals, di.idx - 1)),
                }
            }),
    {
        loop
            invariant
                self.block == old(self).block,
                spec_eiter_wf(*self),
                spec_eiter_emitted(*self) == spec_eiter_emitted(*old(self)),
            decreases
                (if self.group_idx <= self.block@.groups.len() {
                    self.block@.groups.len() - self.group_idx
                } else {
                    0
                }),
                spec_state_rank(self.state),
                spec_state_remaining(*self),
        {
            let ghost pre = *self;
            let stepped = self.step();
            proof {
                let blk = pre.block@;
                let gi = pre.group_idx as int;
                if pre.state == ElementsIterState::Relation && !(gi < blk.groups.len()
                    && pre.elem_idx < blk.groups[gi].relations.len()) {
                    assert(spec_groups_count(blk.groups, gi + 1) == spec_groups_count(
                        blk.groups,
                        gi,
                    ) + spec_group_count(blk.groups[gi]));
                }
                if pre.state == ElementsIterState::DenseNode {
                    match (&pre.dense_iter, &self.dense_iter) {
                        (Some(dpre), Some(dpost)) => {
                            if dpre.idx < spec_dense_len(dpre.dense@) {
                                match &stepped {
                                    Some(Some(Element::DenseNode(node))) => {
                                        lemma_dense_next_model(*dpre, *dpost, Some(*node));
                                    },
                                    _ => {},
                                }
                            }
                        },
                        _ => {},
                    }
                }
            }
            if let Some(element) = stepped {
                return element;
            }
        }
    }
}


/// How many elements one group holds: its dense nodes and its node, way
/// and relation columns together.
pub open spec fn spec_group_count(g: crate::messages::SpecGroup) -> nat {
    spec_dense_len(g.dense) + g.nodes.len() + g.ways.len() + g.relations.len()
}

/// How many elements the first `n` groups hold together.
pub open spec fn spec_groups_count(groups: Seq<crate::messages::SpecGroup>, n: int) -> nat
    decreases n,
{
    if n <= 0 {
        0
    } else {
        spec_groups_count(groups, n - 1) + (if n <= groups.len() {
            spec_group_count(groups[n - 1])
        } else {
            0
        })
    }
}

/// A well-formed elements iterator: its group index and in-column position
/// sit inside the block, and in the dense state the held dense iterator
/// walks the current group's dense run.
pub open spec fn spec_eiter_wf(it: BlockElementsIter<'_>) -> bool {
    let blk = it.block@;
    let gi = it.group_idx as int;
    match it.state {
        ElementsIterState::Group => gi <= blk.groups.len(),
        ElementsIterState::DenseNode => gi < blk.groups.len() && (it.dense_iter matches Some(d)
            && d.block == it.block && d.dense@ == blk.groups[gi].dense && spec_dense_iter_wf(d)),
        ElementsIterState::Node => gi < blk.groups.len() && it.elem_idx
            <= blk.groups[gi].nodes.len(),
        ElementsIterState::Way => gi < blk.groups.len() && it.elem_idx
            <= blk.groups[gi].ways.len(),
        ElementsIterState::Relation => gi < blk.groups.len() && it.elem_idx
            <= blk.groups[gi].relations.len(),
    }
}

/// How many elements a well-formed elements iterator has already yielded:
/// all of the earlier groups, and the walked part of the current one.
pub open spec fn spec_eiter_emitted(it: BlockElementsIter<'_>) -> int {
    let blk = it.block@;
    let gi = it.group_idx as int;
    let before = spec_groups_count(blk.groups, gi) as int;
    match it.state {
        ElementsIterState::Group => before,
        ElementsIterState::DenseNode => spec_groups_count(blk.groups, gi) + (match it.dense_iter {
            Some(d) => d.idx as int,
            None => 0,
        }),
        ElementsIterState::Node => spec_groups_count(blk.groups, gi) + spec_dense_len(
            blk.groups[gi].dense,
        ) + it.elem_idx,
        ElementsIterState::Way => spec_groups_count(blk.groups, gi) + spec_dense_len(
            blk.groups[gi].dense,
        ) + blk.groups[gi].nodes.len() + it.elem_idx,
        ElementsIterState::Relation => spec_groups_count(blk.groups, gi) + spec_dense_len(
            blk.groups[gi].dense,
        ) + blk.groups[gi].nodes.len() + blk.groups[gi].ways.len() + it.elem_idx,
    }
}

/// The rank of a state in the fixed walking order, for termination.
pub open spec fn spec_state_rank(s: ElementsIterState) -> int {
    match s {
        ElementsIterState::Group => 5,
        ElementsIterState::DenseNode => 4,
        ElementsIterState::Node => 3,
        ElementsIterState::Way => 2,
        ElementsIterState::Relation => 1,
    }
}

/// How many entries are left in the column an elements iterator is walking,
/// for termination.
pub open spec fn spec_state_remaining(it: BlockElementsIter<'_>) -> int {
    let blk = it.block@;
    let gi = it.group_idx as int;
    match it.state {
        ElementsIterState::Group => 0,
        ElementsIterState::DenseNode => match it.dense_iter {
            Some(d) => if d.idx <= spec_dense_len(d.dense@) {
                spec_dense_len(d.dense@) - d.idx
            } else {
                0
            },
            None => 0,
        },
        ElementsIterState::Node => if gi < blk.groups.len() && it.elem_idx
            <= blk.groups[gi].nodes.len() {
            blk.groups[gi].nodes.len() - it.elem_idx
        } else {
            0
        },
        ElementsIterState::Way => if gi < blk.groups.len() && it.elem_idx
            <= blk.groups[gi].ways.len() {
            blk.groups[gi].ways.len() - it.elem_idx
        } else {
            0
        },
        ElementsIterState::Relation => if gi < blk.groups.len() && it.elem_idx
            <= blk.groups[gi].relations.len() {
            blk.groups[gi].relations.len() - it.elem_idx
        } else {
            0
        },
    }
}

} // verus!
