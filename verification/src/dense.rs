//! The columnar encoding of nodes

use vstd::prelude::*;

use crate::block::{spec_resolution, str_from_stringtable, PrimitiveBlock};
use crate::elements::{min3, prefix_sum32, prefix_sum64, spec_resolves, wadd32, wadd64, wmul64};
use crate::error::Result;

verus! {

/// The stored metadata columns of a dense node run: per-node versions and
/// visibility flags, and delta-coded timestamps, changesets, user ids and
/// user name indices.
#[derive(Clone, Debug)]
pub struct DenseInfoData {
    pub versions: Vec<i32>,
    pub timestamps: Vec<i64>,
    pub changesets: Vec<i64>,
    pub uids: Vec<i32>,
    pub user_sids: Vec<i32>,
    pub visibles: Vec<bool>,
}

/// The stored form of a dense node run: delta-coded id and coordinate
/// columns, a flattened key/value index array in which a zero ends each
/// node's tag list, and optional metadata columns.
#[derive(Clone, Debug)]
pub struct DenseData {
    pub ids: Vec<i64>,
    pub lats: Vec<i64>,
    pub lons: Vec<i64>,
    pub keys_vals: Vec<i32>,
    pub denseinfo: Option<DenseInfoData>,
}


/// The number of nodes a dense run holds: its three coordinate columns are
/// consumed in lock-step, so the shortest decides.
pub open spec fn spec_dense_len(d: crate::messages::SpecDense) -> nat {
    min3(d.ids.len(), d.lats.len(), d.lons.len())
}

/// The position after one node's tag list in the flattened key/value index
/// column: past the zero that ends it, or the end of the column when no
/// zero follows a whole pair.
pub open spec fn spec_kv_end(kv: Seq<i32>, from: int) -> int
    decreases kv.len() - from,
{
    if from < 0 || from >= kv.len() {
        kv.len() as int
    } else if kv[from] == 0 {
        from + 1
    } else if from + 1 >= kv.len() {
        kv.len() as int
    } else {
        spec_kv_end(kv, from + 2)
    }
}

/// The running sums a dense node iterator keeps: one per delta-coded
/// column, and the position in the flattened key/value index column.
#[derive(Clone, Copy, Debug, PartialEq, Eq, Structural)]
pub struct DenseRun {
    /// The running sum of the id column.
    pub cid: i64,
    /// The running sum of the latitude column.
    pub clat: i64,
    /// The running sum of the longitude column.
    pub clon: i64,
    /// The position of the next node's tags in the key/value index column.
    pub kv_pos: usize,
    /// The running sum of the timestamp column.
    pub ctime: i64,
    /// The running sum of the changeset column.
    pub cchange: i64,
    /// The running sum of the user id column.
    pub cuid: i32,
    /// The running sum of the user name index column.
    pub cuser: i32,
}

impl DenseRun {
    /// The state before any node has been decoded: every running sum seeded
    /// at 0.
    pub fn new() -> (r: DenseRun)
        ensures
            r == spec_dense_run_start(),
    {
        DenseRun { cid: 0, clat: 0, clon: 0, kv_pos: 0, ctime: 0, cchange: 0, cuid: 0, cuser: 0 }
    }
}

/// The starting state of a dense run: every running sum seeded at 0.
pub open spec fn spec_dense_run_start() -> DenseRun {
    DenseRun { cid: 0, clat: 0, clon: 0, kv_pos: 0, ctime: 0, cchange: 0, cuid: 0, cuser: 0 }
}

/// The decoded metadata of one dense node. Each field is present when its
/// column has an entry for the node; the delta-coded fields hold the
/// running sum up to it.
#[derive(Clone, Copy, Debug)]
pub struct DenseNodeInfo {
    /// The node's version, if the version column reaches it.
    pub version: Option<i32>,
    /// The node's timestamp, in units of the block's date granularity.
    pub timestamp: Option<i64>,
    /// The changeset that last touched the node.
    pub changeset: Option<i64>,
    /// The id of the user that last touched the node.
    pub uid: Option<i32>,
    /// A stringtable index for the name of that user.
    pub user_sid: Option<i32>,
    /// Whether the node is visible; true when the column has no entry.
    pub visible: bool,
}

/// One node decoded out of a dense run: its absolute id and coordinates,
/// the start of its tag list in the key/value index column, and its
/// decoded metadata.
#[derive(Clone, Debug)]
pub struct DenseNode<'a> {
    /// The block the dense run belongs to.
    pub block: &'a PrimitiveBlock,
    /// The stored dense run.
    pub dense: &'a DenseData,
    /// The node id, reconstructed by a running sum.
    pub id: i64,
    /// The latitude in units of the block's granularity, reconstructed by a
    /// running sum.
    pub lat: i64,
    /// The longitude in units of the block's granularity, reconstructed by
    /// a running sum.
    pub lon: i64,
    /// Where this node's tag list starts in the key/value index column.
    pub kv_start: usize,
    /// The node's decoded metadata, when the run carries the metadata
    /// columns.
    pub info: Option<DenseNodeInfo>,
}

impl<'a> DenseNode<'a> {
    /// Returns the node id.
    pub fn id(&self) -> (r: i64)
        ensures
            r == self.id,
    {
        self.id
    }

    /// Returns the latitude coordinate in nano-degrees.
    pub fn lat_in_nano_degrees(&self) -> (r: i64)
        ensures
            r == wadd64(self.block@.lat_offset, wmul64(self.block@.granularity as i64, self.lat)),
    {
        self.block.lat_offset.wrapping_add(
            (self.block.granularity as i64).wrapping_mul(self.lat),
        )
    }

    /// Returns the longitude coordinate in nano-degrees.
    pub fn lon_in_nano_degrees(&self) -> (r: i64)
        ensures
            r == wadd64(self.block@.lon_offset, wmul64(self.block@.granularity as i64, self.lon)),
    {
        self.block.lon_offset.wrapping_add(
            (self.block.granularity as i64).wrapping_mul(self.lon),
        )
    }

    /// Returns an iterator over the tags of this node, read from the
    /// flattened key/value index column until its zero terminator.
    pub fn tags(&self) -> (r: DenseTagIter<'a>)
        ensures
            r.block == self.block && r.kv@ == self.dense@.keys_vals && r.pos == self.kv_start,
    {
        DenseTagIter { block: self.block, kv: &self.dense.keys_vals, pos: self.kv_start }
    }

    /// Returns the decoded metadata of this node, when the run carries the
    /// metadata columns.
    pub fn info(&self) -> (r: Option<DenseNodeInfo>)
        ensures
            r == self.info,
    {
        self.info
    }

    /// Returns the version of this node.
    pub fn version(&self) -> (r: Option<i32>)
        ensures
            r == match self.info {
                Some(i) => i.version,
                None => None::<i32>,
            },
    {
        match self.info {
            Some(i) => i.version,
            None => None,
        }
    }

    /// Returns the time stamp in milliseconds since the epoch: the running
    /// timestamp sum multiplied by the block's date granularity.
    pub fn milli_timestamp(&self) -> (r: Option<i64>)
        ensures
            r == match self.info {
                Some(i) => match i.timestamp {
                    Some(t) => Some(wmul64(t, self.block@.date_granularity as i64)),
                    None => None::<i64>,
                },
                None => None::<i64>,
            },
    {
        match self.info {
            Some(i) => match i.timestamp {
                Some(t) => Some(t.wrapping_mul(self.block.date_granularity as i64)),
                None => None,
            },
            None => None,
        }
    }

    /// Returns the changeset id.
    pub fn changeset(&self) -> (r: Option<i64>)
        ensures
            r == match self.info {
                Some(i) => i.changeset,
                None => None::<i64>,
            },
    {
        match self.info {
            Some(i) => i.changeset,
            None => None,
        }
    }

    /// Returns the user id.
    pub fn uid(&self) -> (r: Option<i32>)
        ensures
            r == match self.info {
                Some(i) => i.uid,
                None => None::<i32>,
            },
    {
        match self.info {
            Some(i) => i.uid,
            None => None,
        }
    }

    /// Returns the user name, resolved through the block's stringtable.
    pub fn user(&self) -> (r: Option<Result<&'a str>>)
        ensures
            (match self.info {
                Some(i) => i.user_sid is Some,
                None => false,
            }) <==> r is Some,
            match self.info {
                Some(i) => match i.user_sid {
                    Some(sid) => sid >= 0 ==> (r matches Some(res) && spec_resolution(
                        self.block@.stringtable,
                        sid as int,
                        res,
                    )),
                    None => r is None,
                },
                None => r is None,
            },
    {
        match self.info {
            Some(i) => match i.user_sid {
                Some(sid) => {
                    if sid >= 0 {
                        Some(str_from_stringtable(self.block, sid as usize))
                    } else {
                        Some(crate::error::err_index_out_of_bounds(usize::MAX))
                    }
                },
                None => None,
            },
            None => None,
        }
    }

    /// Returns the visibility status of this node: the stored flag when the
    /// column reaches it, and true otherwise.
    pub fn visible(&self) -> (r: bool)
        ensures
            r == match self.info {
                Some(i) => i.visible,
                None => true,
            },
    {
        match self.info {
            Some(i) => i.visible,
            None => true,
        }
    }
}

/// An iterator over the tags of a dense node. It returns a pair of strings
/// (key and value).
///
/// Pairs are read from the flattened key/value index column until a zero
/// key ends the list; a pair in which either index fails to resolve ends it
/// early.
#[derive(Clone, Debug)]
pub struct DenseTagIter<'a> {
    /// The block whose stringtable resolves the indices.
    pub block: &'a PrimitiveBlock,
    /// The flattened key/value index column of the dense run.
    pub kv: &'a Vec<i32>,
    /// The position of the next pair.
    pub pos: usize,
}

impl<'a> DenseTagIter<'a> {
    /// Yields the next resolved tag pair, or nothing at the zero
    /// terminator, at the end of the column, or when a lookup fails.
    pub fn next(&mut self) -> (r: Option<(&'a str, &'a str)>)
        ensures
            ({
                let p = old(self).pos as int;
                let kv = old(self).kv@;
                let table = old(self).block@.stringtable;
                if p + 1 < kv.len() && kv[p] != 0 {
                    &&& final(self).pos == old(self).pos + 2
                    &&& final(self).block == old(self).block && final(self).kv == old(self).kv
                    &&& if kv[p] >= 0 && kv[p + 1] >= 0 && spec_resolves(table, kv[p] as int)
                        && spec_resolves(table, kv[p + 1] as int) {
                        r matches Some((k, v)) && k@ == vstd::utf8::decode_utf8(
                            table[kv[p] as int],
                        ) && v@ == vstd::utf8::decode_utf8(table[kv[p + 1] as int])
                    } else {
                        r is None
                    }
                } else {
                    r is None && *final(self) == *old(self)
                }
            }),
    {
        if self.pos < self.kv.len() && self.pos + 1 < self.kv.len() && self.kv[self.pos] != 0 {
            let key_index = self.kv[self.pos];
            let val_index = self.kv[self.pos + 1];
            self.pos = self.pos + 2;
            if key_index < 0 || val_index < 0 {
                return None;
            }
            let k_res = str_from_stringtable(self.block, key_index as usize);
            let v_res = str_from_stringtable(self.block, val_index as usize);
            match (k_res, v_res) {
                (Ok(k), Ok(v)) => Some((k, v)),
                _ => None,
            }
        } else {
            None
        }
    }
}

/// An iterator over the nodes of a dense run.
///
/// Every column is delta-coded left to right, so the iterator carries the
/// running sums and must be driven from the start.
#[derive(Clone, Debug)]
pub struct DenseNodeIter<'a> {
    /// The block the dense run belongs to.
    pub block: &'a PrimitiveBlock,
    /// The stored dense run.
    pub dense: &'a DenseData,
    /// How many nodes have been decoded.
    pub idx: usize,
    /// The running sums after the decoded nodes.
    pub run: DenseRun,
}


/// Where the `n`-th node's tag list starts in the flattened key/value index
/// column: the position after `n` tag lists have been skipped.
pub open spec fn spec_kv_pos_at(kv: Seq<i32>, n: int) -> int
    decreases n,
{
    if n <= 0 {
        0
    } else {
        spec_kv_end(kv, spec_kv_pos_at(kv, n - 1))
    }
}

/// A well-formed dense node iterator: its index is inside the run and each
/// running sum is the prefix sum of its column up to the index.
pub open spec fn spec_dense_iter_wf(it: DenseNodeIter<'_>) -> bool {
    let d = it.dense@;
    let i = it.idx as int;
    &&& it.idx <= spec_dense_len(d)
    &&& it.run.cid == prefix_sum64(d.ids, i)
    &&& it.run.clat == prefix_sum64(d.lats, i)
    &&& it.run.clon == prefix_sum64(d.lons, i)
    &&& it.run.kv_pos == spec_kv_pos_at(d.keys_vals, i)
    &&& match d.denseinfo {
        Some(di) => {
            &&& it.run.ctime == prefix_sum64(
                di.timestamps,
                if i <= di.timestamps.len() {
                    i
                } else {
                    di.timestamps.len() as int
                },
            )
            &&& it.run.cchange == prefix_sum64(
                di.changesets,
                if i <= di.changesets.len() {
                    i
                } else {
                    di.changesets.len() as int
                },
            )
            &&& it.run.cuid == prefix_sum32(
                di.uids,
                if i <= di.uids.len() {
                    i
                } else {
                    di.uids.len() as int
                },
            )
            &&& it.run.cuser == prefix_sum32(
                di.user_sids,
                if i <= di.user_sids.len() {
                    i
                } else {
                    di.user_sids.len() as int
                },
            )
        },
        None => true,
    }
}

/// One pull from a well-formed dense node iterator keeps it well formed,
/// and the node it yields carries the prefix sums of the columns up to its
/// index: the delta decoding of a dense run is a running sum per column,
/// exactly as for way references and relation member ids.
pub proof fn lemma_dense_next_model<'a>(
    pre: DenseNodeIter<'a>,
    post: DenseNodeIter<'a>,
    r: Option<DenseNode<'a>>,
)
    requires
        spec_dense_next(pre, post, r),
        spec_dense_iter_wf(pre),
    ensures
        spec_dense_iter_wf(post),
        pre.idx < spec_dense_len(pre.dense@) ==> (r matches Some(n) && n.id == prefix_sum64(
            pre.dense@.ids,
            pre.idx + 1,
        ) && n.lat == prefix_sum64(pre.dense@.lats, pre.idx + 1) && n.lon == prefix_sum64(
            pre.dense@.lons,
            pre.idx + 1,
        ) && n.kv_start == spec_kv_pos_at(pre.dense@.keys_vals, pre.idx as int)),
{
    let d = pre.dense@;
    let i = pre.idx as int;
    if i < spec_dense_len(d) {
        assert(prefix_sum64(d.ids, i + 1) == wadd64(prefix_sum64(d.ids, i), d.ids[i]));
        assert(prefix_sum64(d.lats, i + 1) == wadd64(prefix_sum64(d.lats, i), d.lats[i]));
        assert(prefix_sum64(d.lons, i + 1) == wadd64(prefix_sum64(d.lons, i), d.lons[i]));
        assert(spec_kv_pos_at(d.keys_vals, i + 1) == spec_kv_end(
            d.keys_vals,
            spec_kv_pos_at(d.keys_vals, i),
        ));
        match d.denseinfo {
            Some(di) => {
                if i < di.timestamps.len() {
                    assert(prefix_sum64(di.timestamps, i + 1) == wadd64(
                        prefix_sum64(di.timestamps, i),
                        di.timestamps[i],
                    ));
                }
                if i < di.changesets.len() {
                    assert(prefix_sum64(di.changesets, i + 1) == wadd64(
                        prefix_sum64(di.changesets, i),
                        di.changesets[i],
                    ));
                }
                if i < di.uids.len() {
                    assert(prefix_sum32(di.uids, i + 1) == wadd32(
                        prefix_sum32(di.uids, i),
                        di.uids[i],
                    ));
                }
                if i < di.user_sids.len() {
                    assert(prefix_sum32(di.user_sids, i + 1) == wadd32(
                        prefix_sum32(di.user_sids, i),
                        di.user_sids[i],
                    ));
                }
            },
            None => {},
        }
    }
}

/// How one pull from a dense node iterator relates its prior state `pre`,
/// its later state `post`, and what it yielded.
pub open spec fn spec_dense_next<'a>(
    pre: DenseNodeIter<'a>,
    post: DenseNodeIter<'a>,
    r: Option<DenseNode<'a>>,
) -> bool {
    &&& (pre.idx >= spec_dense_len(pre.dense@) ==> r is None && post == pre)
    &&& (pre.idx < spec_dense_len(pre.dense@) ==> ({
        let d = pre.dense@;
        let i = pre.idx as int;
        let run = pre.run;
        let cid2 = wadd64(run.cid, d.ids[i]);
        let clat2 = wadd64(run.clat, d.lats[i]);
        let clon2 = wadd64(run.clon, d.lons[i]);
        &&& post.block == pre.block && post.dense == pre.dense
        &&& post.idx == pre.idx + 1
        &&& post.run.cid == cid2 && post.run.clat == clat2 && post.run.clon == clon2
        &&& post.run.kv_pos == spec_kv_end(d.keys_vals, run.kv_pos as int)
        &&& r matches Some(node) && node.block == pre.block && node.dense == pre.dense && node.id
            == cid2 && node.lat == clat2 && node.lon == clon2 && node.kv_start == run.kv_pos
        &&& match d.denseinfo {
            Some(di) => {
                &&& post.run.ctime == (if i < di.timestamps.len() {
                    wadd64(run.ctime, di.timestamps[i])
                } else {
                    run.ctime
                })
                &&& post.run.cchange == (if i < di.changesets.len() {
                    wadd64(run.cchange, di.changesets[i])
                } else {
                    run.cchange
                })
                &&& post.run.cuid == (if i < di.uids.len() {
                    wadd32(run.cuid, di.uids[i])
                } else {
                    run.cuid
                })
                &&& post.run.cuser == (if i < di.user_sids.len() {
                    wadd32(run.cuser, di.user_sids[i])
                } else {
                    run.cuser
                })
                &&& (r matches Some(node) && node.info matches Some(info) && info
                    == (DenseNodeInfo {
                    version: if i < di.versions.len() {
                        Some(di.versions[i])
                    } else {
                        None
                    },
                    timestamp: if i < di.timestamps.len() {
                        Some(post.run.ctime)
                    } else {
                        None
                    },
                    changeset: if i < di.changesets.len() {
                        Some(post.run.cchange)
                    } else {
                        None
                    },
                    uid: if i < di.uids.len() {
                        Some(post.run.cuid)
                    } else {
                        None
                    },
                    user_sid: if i < di.user_sids.len() {
                        Some(post.run.cuser)
                    } else {
                        None
                    },
                    visible: if i < di.visibles.len() {
                        di.visibles[i]
                    } else {
                        true
                    },
                }))
            },
            None => {
                &&& post.run.ctime == run.ctime && post.run.cchange == run.cchange && post.run.cuid
                    == run.cuid && post.run.cuser == run.cuser
                &&& (r matches Some(node) && node.info is None)
            },
        }
    }))
}

impl<'a> DenseNodeIter<'a> {
    pub(crate) fn new(block: &'a PrimitiveBlock, dense: &'a DenseData) -> (r: DenseNodeIter<'a>)
        ensures
            r.block == block && r.dense == dense && r.idx == 0 && r.run == spec_dense_run_start(),
            spec_dense_iter_wf(r),
    {
        DenseNodeIter { block, dense, idx: 0, run: DenseRun::new() }
    }

    /// Yields the next decoded node, advancing every running sum by its
    /// column's delta and the tag position past this node's tag list.
    pub fn next(&mut self) -> (r: Option<DenseNode<'a>>)
        ensures
            spec_dense_next(*old(self), *final(self), r),
    {
        let n1 = self.dense.ids.len();
        let n2 = self.dense.lats.len();
        let n3 = self.dense.lons.len();
        let n = if n1 <= n2 && n1 <= n3 {
            n1
        } else if n2 <= n3 {
            n2
        } else {
            n3
        };
        if self.idx >= n {
            return None;
        }
        let i = self.idx;
        self.run.cid = self.run.cid.wrapping_add(self.dense.ids[i]);
        self.run.clat = self.run.clat.wrapping_add(self.dense.lats[i]);
        self.run.clon = self.run.clon.wrapping_add(self.dense.lons[i]);
        let kv_start = self.run.kv_pos;
        self.run.kv_pos = kv_advance(&self.dense.keys_vals, kv_start);
        let info: Option<DenseNodeInfo> = match &self.dense.denseinfo {
            Some(di) => {
                let version: Option<i32> = if i < di.versions.len() {
                    Some(di.versions[i])
                } else {
                    None
                };
                let timestamp: Option<i64> = if i < di.timestamps.len() {
                    self.run.ctime = self.run.ctime.wrapping_add(di.timestamps[i]);
                    Some(self.run.ctime)
                } else {
                    None
                };
                let changeset: Option<i64> = if i < di.changesets.len() {
                    self.run.cchange = self.run.cchange.wrapping_add(di.changesets[i]);
                    Some(self.run.cchange)
                } else {
                    None
                };
                let uid: Option<i32> = if i < di.uids.len() {
                    self.run.cuid = self.run.cuid.wrapping_add(di.uids[i]);
                    Some(self.run.cuid)
                } else {
                    None
                };
                let user_sid: Option<i32> = if i < di.user_sids.len() {
                    self.run.cuser = self.run.cuser.wrapping_add(di.user_sids[i]);
                    Some(self.run.cuser)
                } else {
                    None
                };
                let visible: bool = if i < di.visibles.len() {
                    di.visibles[i]
                } else {
                    true
                };
                Some(DenseNodeInfo { version, timestamp, changeset, uid, user_sid, visible })
            },
            None => None,
        };
        let node = DenseNode {
            block: self.block,
            dense: self.dense,
            id: self.run.cid,
            lat: self.run.clat,
            lon: self.run.clon,
            kv_start,
            info,
        };
        self.idx = i + 1;
        Some(node)
    }
}

/// Advances past one node's tag list in the flattened key/value index
/// column: past the zero that ends it, or to the end of the column.
fn kv_advance(kv: &Vec<i32>, from: usize) -> (r: usize)
    ensures
        r == spec_kv_end(kv@, from as int),
        r <= kv@.len(),
{
    let n = kv.len();
    let mut p = from;
    if p >= n {
        return n;
    }
    loop
        invariant
            p < n,
            n == kv@.len(),
            from <= p,
            spec_kv_end(kv@, from as int) == spec_kv_end(kv@, p as int),
        decreases n - p,
    {
        if kv[p] == 0 {
            return p + 1;
        }
        if p + 1 >= n {
            return n;
        }
        if p + 2 >= n {
            proof {
                assert(spec_kv_end(kv@, p as int) == spec_kv_end(kv@, p + 2));
            }
            return n;
        }
        p = p + 2;
    }
}

} // verus!
