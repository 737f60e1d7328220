//! Nodes, ways and relations

use vstd::prelude::*;

use crate::block::{spec_resolution, str_from_stringtable, PrimitiveBlock};
use crate::dense::DenseNode;
use crate::error::{ErrorKind, Result};

verus! {

/// Wrapping addition of two signed 64-bit values, the discipline every
/// delta column is summed with.
pub open spec fn wadd64(a: i64, b: i64) -> i64 {
    vstd::wrapping::i64_specs::wrapping_add(a, b)
}

/// Wrapping addition of two signed 32-bit values.
pub open spec fn wadd32(a: i32, b: i32) -> i32 {
    vstd::wrapping::i32_specs::wrapping_add(a, b)
}

/// Wrapping multiplication of two signed 64-bit values.
pub open spec fn wmul64(a: i64, b: i64) -> i64 {
    vstd::wrapping::i64_specs::wrapping_mul(a, b)
}

/// The wrapping sum of the first `n` deltas: the absolute value the n-th
/// delta-coded entry stands for, seeded at 0.
pub open spec fn prefix_sum64(deltas: Seq<i64>, n: int) -> i64
    decreases n,
{
    if n <= 0 {
        0
    } else {
        wadd64(prefix_sum64(deltas, n - 1), deltas[n - 1])
    }
}

/// The wrapping sum of the first `n` 32-bit deltas.
pub open spec fn prefix_sum32(deltas: Seq<i32>, n: int) -> i32
    decreases n,
{
    if n <= 0 {
        0
    } else {
        wadd32(prefix_sum32(deltas, n - 1), deltas[n - 1])
    }
}

/// The sequence of absolute values a delta column decodes to: the running
/// sums of its prefixes.
pub open spec fn running_sums64(deltas: Seq<i64>) -> Seq<i64> {
    Seq::new(deltas.len(), |i: int| prefix_sum64(deltas, i + 1))
}

/// The element type of a relation member.
#[derive(Clone, Copy, Debug, Eq, PartialEq, Structural)]
pub enum RelMemberType {
    /// The member is a node.
    Node,
    /// The member is a way.
    Way,
    /// The member is a relation.
    Relation,
}

/// Optional metadata of one element, as stored in a block.
#[derive(Clone, Copy, Debug)]
pub struct InfoData {
    /// The element's version, if versioned.
    pub version: Option<i32>,
    /// The element's timestamp, in units of the block's date granularity.
    pub timestamp: Option<i64>,
    /// The changeset that last touched the element.
    pub changeset: Option<i64>,
    /// The id of the user that last touched the element.
    pub uid: Option<i32>,
    /// A stringtable index for the name of that user.
    pub user_sid: Option<u32>,
    /// Whether the element is visible, for history files.
    pub visible: Option<bool>,
}

/// The stored form of one node: an id, parallel key and value index arrays,
/// optional metadata, and coordinates in units of the block's granularity.
#[derive(Clone, Debug)]
pub struct NodeData {
    pub id: i64,
    pub keys: Vec<u32>,
    pub vals: Vec<u32>,
    pub info: Option<InfoData>,
    pub lat: i64,
    pub lon: i64,
}

/// The stored form of one way: an id, parallel key and value index arrays,
/// optional metadata, and delta-coded node references.
#[derive(Clone, Debug)]
pub struct WayData {
    pub id: i64,
    pub keys: Vec<u32>,
    pub vals: Vec<u32>,
    pub info: Option<InfoData>,
    pub refs: Vec<i64>,
}

/// The stored form of one relation: an id, parallel key and value index
/// arrays, optional metadata, and three parallel member arrays (role index,
/// delta-coded member id, member type).
#[derive(Clone, Debug)]
pub struct RelationData {
    pub id: i64,
    pub keys: Vec<u32>,
    pub vals: Vec<u32>,
    pub info: Option<InfoData>,
    pub roles_sid: Vec<i32>,
    pub memids: Vec<i64>,
    pub types: Vec<RelMemberType>,
}


/// An enum with the OSM core elements: nodes, ways and relations.
#[derive(Clone, Debug)]
pub enum Element<'a> {
    /// A node. Also, see `DenseNode`.
    Node(Node<'a>),
    /// Just like `Node`, but with a different representation in memory. This
    /// distinction is usually not important but is not abstracted away to
    /// avoid copying. So, if you want to match `Node`, you also likely want
    /// to match `DenseNode`.
    DenseNode(DenseNode<'a>),
    /// A way.
    Way(Way<'a>),
    /// A relation.
    Relation(Relation<'a>),
}

/// An OpenStreetMap node element.
///
/// A read-only view over one stored node and the block that owns it.
#[derive(Clone, Debug)]
pub struct Node<'a> {
    /// The block the node belongs to.
    pub block: &'a PrimitiveBlock,
    /// The stored node.
    pub osmnode: &'a NodeData,
}

impl<'a> Node<'a> {
    pub(crate) fn new(block: &'a PrimitiveBlock, osmnode: &'a NodeData) -> (r: Node<'a>)
        ensures
            r.block == block && r.osmnode == osmnode,
    {
        Node { block, osmnode }
    }

    /// Returns the node id. It should be unique between nodes and might be
    /// negative to indicate that the element has not yet been uploaded to a
    /// server.
    pub fn id(&self) -> (r: i64)
        ensures
            r == self.osmnode@.id,
    {
        self.osmnode.id
    }

    /// Returns an iterator over the tags of this node. A tag is a pair of
    /// strings (key and value), resolved through the block's stringtable.
    pub fn tags(&self) -> (r: TagIter<'a>)
        ensures
            r.block == self.block && r.keys@ == self.osmnode@.keys && r.vals@ == self.osmnode@.vals
                && r.pos == 0,
    {
        TagIter { block: self.block, keys: &self.osmnode.keys, vals: &self.osmnode.vals, pos: 0 }
    }

    /// Returns additional metadata for this element.
    pub fn info(&self) -> (r: Info<'a>)
        ensures
            r.block == self.block && r.info == self.osmnode@.info,
    {
        Info { block: self.block, info: self.osmnode.info }
    }

    /// Returns the latitude coordinate in nano-degrees: the block's offset
    /// plus the stored coordinate scaled by the block's granularity.
    pub fn lat_in_nano_degrees(&self) -> (r: i64)
        ensures
            r == wadd64(
                self.block@.lat_offset,
                wmul64(self.block@.granularity as i64, self.osmnode@.lat),
            ),
    {
        self.block.lat_offset.wrapping_add(
            (self.block.granularity as i64).wrapping_mul(self.osmnode.lat),
        )
    }

    /// Returns the longitude coordinate in nano-degrees.
    pub fn lon_in_nano_degrees(&self) -> (r: i64)
        ensures
            r == wadd64(
                self.block@.lon_offset,
                wmul64(self.block@.granularity as i64, self.osmnode@.lon),
            ),
    {
        self.block.lon_offset.wrapping_add(
            (self.block.granularity as i64).wrapping_mul(self.osmnode.lon),
        )
    }

    /// Returns an iterator over the tags of this node as pairs of indices
    /// (key and value) into the stringtable of the current block.
    pub fn raw_tags(&self) -> (r: RawTagIter<'a>)
        ensures
            r.keys@ == self.osmnode@.keys && r.vals@ == self.osmnode@.vals && r.pos == 0,
    {
        RawTagIter { keys: &self.osmnode.keys, vals: &self.osmnode.vals, pos: 0 }
    }

    /// Returns the raw stringtable. Elements in a block do not store strings
    /// themselves; instead, they just store indices into a common
    /// stringtable. By convention, the contained strings are UTF-8 encoded
    /// but it is not safe to assume that.
    pub fn raw_stringtable(&self) -> (r: &'a [Vec<u8>])
        ensures
            r.deep_view() == self.block@.stringtable,
    {
        self.block.raw_stringtable()
    }
}

/// An OpenStreetMap way element.
///
/// A way contains an ordered list of node references that can be accessed
/// with the `refs` or the `raw_refs` method.
#[derive(Clone, Debug)]
pub struct Way<'a> {
    /// The block the way belongs to.
    pub block: &'a PrimitiveBlock,
    /// The stored way.
    pub osmway: &'a WayData,
}

impl<'a> Way<'a> {
    pub(crate) fn new(block: &'a PrimitiveBlock, osmway: &'a WayData) -> (r: Way<'a>)
        ensures
            r.block == block && r.osmway == osmway,
    {
        Way { block, osmway }
    }

    /// Returns the way id.
    pub fn id(&self) -> (r: i64)
        ensures
            r == self.osmway@.id,
    {
        self.osmway.id
    }

    /// Returns an iterator over the tags of this way. A tag is a pair of
    /// strings (key and value), resolved through the block's stringtable.
    pub fn tags(&self) -> (r: TagIter<'a>)
        ensures
            r.block == self.block && r.keys@ == self.osmway@.keys && r.vals@ == self.osmway@.vals
                && r.pos == 0,
    {
        TagIter { block: self.block, keys: &self.osmway.keys, vals: &self.osmway.vals, pos: 0 }
    }

    /// Returns additional metadata for this element.
    pub fn info(&self) -> (r: Info<'a>)
        ensures
            r.block == self.block && r.info == self.osmway@.info,
    {
        Info { block: self.block, info: self.osmway.info }
    }

    /// Returns an iterator over the references of this way. Each reference
    /// is an absolute node id, reconstructed by a running sum over the
    /// stored deltas, seeded at 0.
    pub fn refs(&self) -> (r: WayRefIter<'a>)
        ensures
            r.deltas@ == self.osmway@.refs && r.pos == 0 && r.current == 0,
    {
        WayRefIter { deltas: &self.osmway.refs, pos: 0, current: 0 }
    }

    /// Returns a borrow of the stored delta-coded node ids.
    pub fn raw_refs(&self) -> (r: &'a [i64])
        ensures
            r@ == self.osmway@.refs,
    {
        self.osmway.refs.as_slice()
    }

    /// Returns an iterator over the tags of this way as pairs of indices
    /// (key and value) into the stringtable of the current block.
    pub fn raw_tags(&self) -> (r: RawTagIter<'a>)
        ensures
            r.keys@ == self.osmway@.keys && r.vals@ == self.osmway@.vals && r.pos == 0,
    {
        RawTagIter { keys: &self.osmway.keys, vals: &self.osmway.vals, pos: 0 }
    }

    /// Returns the raw stringtable.
    pub fn raw_stringtable(&self) -> (r: &'a [Vec<u8>])
        ensures
            r.deep_view() == self.block@.stringtable,
    {
        self.block.raw_stringtable()
    }
}

/// An OpenStreetMap relation element.
///
/// A relation contains an ordered list of members that can be of any
/// element type.
#[derive(Clone, Debug)]
pub struct Relation<'a> {
    /// The block the relation belongs to.
    pub block: &'a PrimitiveBlock,
    /// The stored relation.
    pub osmrel: &'a RelationData,
}

impl<'a> Relation<'a> {
    pub(crate) fn new(block: &'a PrimitiveBlock, osmrel: &'a RelationData) -> (r: Relation<'a>)
        ensures
            r.block == block && r.osmrel == osmrel,
    {
        Relation { block, osmrel }
    }

    /// Returns the relation id.
    pub fn id(&self) -> (r: i64)
        ensures
            r == self.osmrel@.id,
    {
        self.osmrel.id
    }

    /// Returns an iterator over the tags of this relation. A tag is a pair
    /// of strings (key and value), resolved through the block's stringtable.
    pub fn tags(&self) -> (r: TagIter<'a>)
        ensures
            r.block == self.block && r.keys@ == self.osmrel@.keys && r.vals@ == self.osmrel@.vals
                && r.pos == 0,
    {
        TagIter { block: self.block, keys: &self.osmrel.keys, vals: &self.osmrel.vals, pos: 0 }
    }

    /// Returns additional metadata for this element.
    pub fn info(&self) -> (r: Info<'a>)
        ensures
            r.block == self.block && r.info == self.osmrel@.info,
    {
        Info { block: self.block, info: self.osmrel.info }
    }

    /// Returns an iterator over the members of this relation.
    pub fn members(&self) -> (r: RelMemberIter<'a>)
        ensures
            r.block == self.block && r.roles_sid@ == self.osmrel@.roles_sid && r.memids@
                == self.osmrel@.memids && r.types@ == self.osmrel@.types && r.pos == 0
                && r.current_member_id == 0,
    {
        RelMemberIter {
            block: self.block,
            roles_sid: &self.osmrel.roles_sid,
            memids: &self.osmrel.memids,
            types: &self.osmrel.types,
            pos: 0,
            current_member_id: 0,
        }
    }

    /// Returns an iterator over the tags of this relation as pairs of
    /// indices (key and value) into the stringtable of the current block.
    pub fn raw_tags(&self) -> (r: RawTagIter<'a>)
        ensures
            r.keys@ == self.osmrel@.keys && r.vals@ == self.osmrel@.vals && r.pos == 0,
    {
        RawTagIter { keys: &self.osmrel.keys, vals: &self.osmrel.vals, pos: 0 }
    }

    /// Returns the raw stringtable.
    pub fn raw_stringtable(&self) -> (r: &'a [Vec<u8>])
        ensures
            r.deep_view() == self.block@.stringtable,
    {
        self.block.raw_stringtable()
    }
}

/// An iterator over the references of a way.
///
/// Each reference corresponds to a node id; the n-th value yielded is the
/// wrapping sum of the first n stored deltas.
#[derive(Clone, Debug)]
pub struct WayRefIter<'a> {
    /// The stored delta column.
    pub deltas: &'a Vec<i64>,
    /// How many deltas have been consumed.
    pub pos: usize,
    /// The running sum of the consumed deltas.
    pub current: i64,
}

impl<'a> WayRefIter<'a> {
    /// Yields the next absolute node id, the running sum advanced by one
    /// stored delta.
    pub fn next(&mut self) -> (r: Option<i64>)
        ensures
            old(self).pos < old(self).deltas@.len() ==> {
                &&& final(self).pos == old(self).pos + 1
                &&& final(self).current == wadd64(
                    old(self).current,
                    old(self).deltas@[old(self).pos as int],
                )
                &&& r == Some(final(self).current)
                &&& final(self).deltas == old(self).deltas
            },
            old(self).pos >= old(self).deltas@.len() ==> r is None && *final(self) == *old(self),
            old(self).current == prefix_sum64(old(self).deltas@, old(self).pos as int) && old(self).pos < old(self).deltas@.len() ==> r == Some(
                prefix_sum64(old(self).deltas@, old(self).pos + 1),
            ),
    {
        if self.pos < self.deltas.len() {
            let d = self.deltas[self.pos];
            self.current = self.current.wrapping_add(d);
            self.pos = self.pos + 1;
            Some(self.current)
        } else {
            None
        }
    }
}

/// A member of a relation.
///
/// Each member has a member type and a member id that references an element
/// of that type, and a role resolved through the block's stringtable.
#[derive(Clone, Debug)]
pub struct RelMember<'a> {
    /// The block the relation belongs to.
    pub block: &'a PrimitiveBlock,
    /// The stringtable index of the member's role.
    pub role_sid: i32,
    /// The absolute member id, reconstructed by a running sum.
    pub member_id: i64,
    /// The type of the member.
    pub member_type: RelMemberType,
}

impl<'a> RelMember<'a> {
    /// Returns the role of a relation member.
    pub fn role(&self) -> (r: Result<&'a str>)
        ensures
            self.role_sid >= 0 ==> spec_resolution(
                self.block@.stringtable,
                self.role_sid as int,
                r,
            ),
            self.role_sid < 0 ==> (r matches Err(e) && (e@ matches
                ErrorKind::StringtableIndexOutOfBounds { .. })),
    {
        if self.role_sid >= 0 {
            str_from_stringtable(self.block, self.role_sid as usize)
        } else {
            crate::error::err_index_out_of_bounds(usize::MAX)
        }
    }
}

/// An iterator over the members of a relation.
///
/// The three stored member columns are consumed in lock-step; iteration
/// ends as soon as any one of them is exhausted.
#[derive(Clone, Debug)]
pub struct RelMemberIter<'a> {
    /// The block the relation belongs to.
    pub block: &'a PrimitiveBlock,
    /// The stored role index column.
    pub roles_sid: &'a Vec<i32>,
    /// The stored delta-coded member id column.
    pub memids: &'a Vec<i64>,
    /// The stored member type column.
    pub types: &'a Vec<RelMemberType>,
    /// How many members have been consumed.
    pub pos: usize,
    /// The running sum of the consumed member id deltas.
    pub current_member_id: i64,
}

/// The number of members three parallel columns yield: the length of the
/// shortest.
pub open spec fn min3(a: nat, b: nat, c: nat) -> nat {
    if a <= b && a <= c {
        a
    } else if b <= c {
        b
    } else {
        c
    }
}

impl<'a> RelMemberIter<'a> {
    /// Yields the next member, while all three columns have an entry left.
    pub fn next(&mut self) -> (r: Option<RelMember<'a>>)
        ensures
            old(self).pos < min3(
                old(self).roles_sid@.len(),
                old(self).memids@.len(),
                old(self).types@.len(),
            ) ==> {
                &&& final(self).pos == old(self).pos + 1
                &&& final(self).current_member_id == wadd64(
                    old(self).current_member_id,
                    old(self).memids@[old(self).pos as int],
                )
                &&& r matches Some(m) && m.block == old(self).block && m.role_sid == old(self).roles_sid@[old(self).pos as int] && m.member_id == final(self).current_member_id
                    && m.member_type == old(self).types@[old(self).pos as int]
                &&& final(self).roles_sid == old(self).roles_sid && final(self).memids == old(self).memids && final(self).types == old(self).types && final(self).block == old(self).block
            },
            old(self).pos >= min3(
                old(self).roles_sid@.len(),
                old(self).memids@.len(),
                old(self).types@.len(),
            ) ==> r is None && *final(self) == *old(self),
            old(self).current_member_id == prefix_sum64(old(self).memids@, old(self).pos as int)
                && old(self).pos < min3(
                old(self).roles_sid@.len(),
                old(self).memids@.len(),
                old(self).types@.len(),
            ) ==> (r matches Some(m) && m.member_id == prefix_sum64(
                old(self).memids@,
                old(self).pos + 1,
            )),
    {
        if self.pos < self.roles_sid.len() && self.pos < self.memids.len() && self.pos
            < self.types.len() {
            let d = self.memids[self.pos];
            self.current_member_id = self.current_member_id.wrapping_add(d);
            let m = RelMember {
                block: self.block,
                role_sid: self.roles_sid[self.pos],
                member_id: self.current_member_id,
                member_type: self.types[self.pos],
            };
            self.pos = self.pos + 1;
            Some(m)
        } else {
            None
        }
    }
}

/// An iterator over the tags of an element. It returns a pair of strings
/// (key and value).
///
/// The key and value index columns are consumed in lock-step; iteration
/// ends when either is exhausted, and a pair in which either index fails to
/// resolve ends it early.
#[derive(Clone, Debug)]
pub struct TagIter<'a> {
    /// The block whose stringtable resolves the indices.
    pub block: &'a PrimitiveBlock,
    /// The stored key index column.
    pub keys: &'a Vec<u32>,
    /// The stored value index column.
    pub vals: &'a Vec<u32>,
    /// How many pairs have been consumed.
    pub pos: usize,
}

/// Whether a stringtable index resolves to a string.
pub open spec fn spec_resolves(table: Seq<Seq<u8>>, index: int) -> bool {
    0 <= index < table.len() && vstd::utf8::valid_utf8(table[index])
}

impl<'a> TagIter<'a> {
    /// Yields the next resolved tag pair, or nothing when a column is
    /// exhausted or a lookup fails.
    pub fn next(&mut self) -> (r: Option<(&'a str, &'a str)>)
        ensures
            ({
                let p = old(self).pos as int;
                let table = old(self).block@.stringtable;
                if p < old(self).keys@.len() && p < old(self).vals@.len() {
                    &&& final(self).pos == old(self).pos + 1
                    &&& final(self).block == old(self).block && final(self).keys == old(self).keys
                        && final(self).vals == old(self).vals
                    &&& if spec_resolves(table, old(self).keys@[p] as int) && spec_resolves(
                        table,
                        old(self).vals@[p] as int,
                    ) {
                        r matches Some((k, v)) && k@ == vstd::utf8::decode_utf8(
                            table[old(self).keys@[p] as int],
                        ) && v@ == vstd::utf8::decode_utf8(table[old(self).vals@[p] as int])
                    } else {
                        r is None
                    }
                } else {
                    r is None && *final(self) == *old(self)
                }
            }),
    {
        if self.pos < self.keys.len() && self.pos < self.vals.len() {
            let key_index = self.keys[self.pos];
            let val_index = self.vals[self.pos];
            self.pos = self.pos + 1;
            let k_res = str_from_stringtable(self.block, key_index as usize);
            let v_res = str_from_stringtable(self.block, val_index as usize);
            match (k_res, v_res) {
                (Ok(k), Ok(v)) => Some((k, v)),
                _ => None,
            }
        } else {
            None
        }
    }
}

/// An iterator over the tags of an element. It returns a pair of indices
/// (key and value) into the stringtable of the current block.
#[derive(Clone, Debug)]
pub struct RawTagIter<'a> {
    /// The stored key index column.
    pub keys: &'a Vec<u32>,
    /// The stored value index column.
    pub vals: &'a Vec<u32>,
    /// How many pairs have been consumed.
    pub pos: usize,
}

impl<'a> RawTagIter<'a> {
    /// Yields the next index pair, while both columns have an entry left.
    pub fn next(&mut self) -> (r: Option<(u32, u32)>)
        ensures
            ({
                let p = old(self).pos as int;
                if p < old(self).keys@.len() && p < old(self).vals@.len() {
                    &&& final(self).pos == old(self).pos + 1
                    &&& final(self).keys == old(self).keys && final(self).vals == old(self).vals
                    &&& r == Some((old(self).keys@[p], old(self).vals@[p]))
                } else {
                    r is None && *final(self) == *old(self)
                }
            }),
    {
        if self.pos < self.keys.len() && self.pos < self.vals.len() {
            let pair = (self.keys[self.pos], self.vals[self.pos]);
            self.pos = self.pos + 1;
            Some(pair)
        } else {
            None
        }
    }
}

/// Whether an element is visible: the stored flag when one is present, and
/// true otherwise, since absence means the record is current, not deleted.
pub open spec fn spec_visible(info: Option<InfoData>) -> bool {
    match info {
        Some(i) => match i.visible {
            Some(v) => v,
            None => true,
        },
        None => true,
    }
}

/// Additional metadata that might be included in each element.
#[derive(Clone, Copy, Debug)]
pub struct Info<'a> {
    /// The block the element belongs to.
    pub block: &'a PrimitiveBlock,
    /// The stored metadata, if the element carries any.
    pub info: Option<InfoData>,
}

impl<'a> Info<'a> {
    /// Returns the version of this element.
    pub fn version(&self) -> (r: Option<i32>)
        ensures
            r == match self.info {
                Some(i) => i.version,
                None => None::<i32>,
            },
    {
        match self.info {
            Some(i) => i.version,
            None => None,
        }
    }

    /// Returns the time stamp in milliseconds since the epoch: the stored
    /// delta multiplied by the block's date granularity.
    pub fn milli_timestamp(&self) -> (r: Option<i64>)
        ensures
            r == match self.info {
                Some(i) => match i.timestamp {
                    Some(t) => Some(wmul64(t, self.block@.date_granularity as i64)),
                    None => None::<i64>,
                },
                None => None::<i64>,
            },
    {
        match self.info {
            Some(i) => match i.timestamp {
                Some(t) => Some(t.wrapping_mul(self.block.date_granularity as i64)),
                None => None,
            },
            None => None,
        }
    }

    /// Returns the changeset id.
    pub fn changeset(&self) -> (r: Option<i64>)
        ensures
            r == match self.info {
                Some(i) => i.changeset,
                None => None::<i64>,
            },
    {
        match self.info {
            Some(i) => i.changeset,
            None => None,
        }
    }

    /// Returns the user id.
    pub fn uid(&self) -> (r: Option<i32>)
        ensures
            r == match self.info {
                Some(i) => i.uid,
                None => None::<i32>,
            },
    {
        match self.info {
            Some(i) => i.uid,
            None => None,
        }
    }

    /// Returns the user name, resolved through the block's stringtable.
    pub fn user(&self) -> (r: Option<Result<&'a str>>)
        ensures
            (match self.info {
                Some(i) => i.user_sid is Some,
                None => false,
            }) <==> r is Some,
            match self.info {
                Some(i) => match i.user_sid {
                    Some(sid) => r matches Some(res) && spec_resolution(
                        self.block@.stringtable,
                        sid as int,
                        res,
                    ),
                    None => r is None,
                },
                None => r is None,
            },
    {
        match self.info {
            Some(i) => match i.user_sid {
                Some(sid) => Some(str_from_stringtable(self.block, sid as usize)),
                None => None,
            },
            None => None,
        }
    }

    /// Returns the visibility status of an element. This is only relevant
    /// if the data contains historical information. When the stored flag is
    /// absent it must be assumed to be true.
    pub fn visible(&self) -> (r: bool)
        ensures
            r == spec_visible(self.info),
    {
        match self.info {
            Some(i) => match i.visible {
                Some(v) => v,
                None => true,
            },
            None => true,
        }
    }
}


/// The exact integer sum of the first `n` deltas, with no wrapping.
pub open spec fn exact_prefix_sum(deltas: Seq<i64>, n: int) -> int
    decreases n,
{
    if n <= 0 {
        0
    } else {
        exact_prefix_sum(deltas, n - 1) + deltas[n - 1]
    }
}

/// Delta decode correctness: so long as every intermediate running sum
/// stays within the 64-bit signed range, the n-th decoded absolute value is
/// the exact integer sum of the first n deltas.
pub proof fn lemma_delta_decode_exact(deltas: Seq<i64>, n: int)
    requires
        0 <= n <= deltas.len(),
        forall|i: int| 0 <= i <= n ==> i64::MIN <= #[trigger] exact_prefix_sum(deltas, i)
            <= i64::MAX,
    ensures
        prefix_sum64(deltas, n) == exact_prefix_sum(deltas, n),
    decreases n,
{
    if n > 0 {
        assert(forall|i: int| 0 <= i <= n - 1 ==> i64::MIN <= #[trigger] exact_prefix_sum(
            deltas,
            i,
        ) <= i64::MAX);
        lemma_delta_decode_exact(deltas, n - 1);
    }
}

/// The decoded reference sequence has one absolute value per delta, and its
/// n-th entry is the running sum of the first n + 1 deltas.
pub proof fn lemma_running_sums_shape(deltas: Seq<i64>, i: int)
    requires
        0 <= i < deltas.len(),
    ensures
        running_sums64(deltas).len() == deltas.len(),
        running_sums64(deltas)[i] == wadd64(prefix_sum64(deltas, i), deltas[i]),
{
}

/// Truncation policy: three parallel member columns of unequal lengths
/// yield exactly as many members as the shortest column holds; the longer
/// columns' leftover entries are dropped, and no error arises.
pub proof fn lemma_member_truncation(roles: Seq<i32>, memids: Seq<i64>, types: Seq<RelMemberType>)
    ensures
        min3(roles.len(), memids.len(), types.len()) <= roles.len(),
        min3(roles.len(), memids.len(), types.len()) <= memids.len(),
        min3(roles.len(), memids.len(), types.len()) <= types.len(),
        min3(roles.len(), memids.len(), types.len()) == roles.len() || min3(
            roles.len(),
            memids.len(),
            types.len(),
        ) == memids.len() || min3(roles.len(), memids.len(), types.len()) == types.len(),
{
}

} // verus!
