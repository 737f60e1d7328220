//! Decoding of the block messages from their wire-format field sequences.
//!
//! Each message is decoded by folding a step function over its field
//! sequence: known fields update the partial message, unknown fields are
//! skipped, and a field with the wrong wire type is an error. Scalar fields
//! keep the last occurrence; repeated fields append, accepting both packed
//! runs and single values.

use vstd::prelude::*;

use crate::blob::{BlobData, BlobHeader};
use crate::block::{HeaderBlock, PrimitiveBlock, PrimitiveGroupData};
use crate::dense::{DenseData, DenseInfoData};
use crate::elements::{InfoData, NodeData, RelMemberType, RelationData, WayData};
use crate::error::WireError;
use crate::wire::{
    decode_bool, decode_int32, decode_int64, decode_sint32, decode_sint64, decode_uint32,
    parse_fields, parse_packed_varints, spec_bool, spec_fields, spec_int32, spec_int64,
    spec_packed_varints, spec_sint32, spec_sint64, spec_uint32, utf8_to_str, FieldData,
    SpecField, SpecFieldData,
};

verus! {

/// The spec form of a stored node.
#[verifier::ext_equal]
pub struct SpecNode {
    pub id: i64,
    pub keys: Seq<u32>,
    pub vals: Seq<u32>,
    pub info: Option<InfoData>,
    pub lat: i64,
    pub lon: i64,
}

/// The spec form of a stored way.
#[verifier::ext_equal]
pub struct SpecWay {
    pub id: i64,
    pub keys: Seq<u32>,
    pub vals: Seq<u32>,
    pub info: Option<InfoData>,
    pub refs: Seq<i64>,
}

/// The spec form of a stored relation.
#[verifier::ext_equal]
pub struct SpecRelation {
    pub id: i64,
    pub keys: Seq<u32>,
    pub vals: Seq<u32>,
    pub info: Option<InfoData>,
    pub roles_sid: Seq<i32>,
    pub memids: Seq<i64>,
    pub types: Seq<RelMemberType>,
}

impl View for NodeData {
    type V = SpecNode;

    open spec fn view(&self) -> SpecNode {
        SpecNode {
            id: self.id,
            keys: self.keys@,
            vals: self.vals@,
            info: self.info,
            lat: self.lat,
            lon: self.lon,
        }
    }
}

impl View for WayData {
    type V = SpecWay;

    open spec fn view(&self) -> SpecWay {
        SpecWay {
            id: self.id,
            keys: self.keys@,
            vals: self.vals@,
            info: self.info,
            refs: self.refs@,
        }
    }
}

impl View for RelationData {
    type V = SpecRelation;

    open spec fn view(&self) -> SpecRelation {
        SpecRelation {
            id: self.id,
            keys: self.keys@,
            vals: self.vals@,
            info: self.info,
            roles_sid: self.roles_sid@,
            memids: self.memids@,
            types: self.types@,
        }
    }
}

/// The values a field contributes to a repeated varint-scalar column: a
/// single value, or a whole packed run.
pub open spec fn spec_u64s_of(d: SpecFieldData) -> Option<Seq<u64>> {
    match d {
        SpecFieldData::Varint(v) => Some(seq![v]),
        SpecFieldData::Bytes(b) => spec_packed_varints(b),
        _ => None,
    }
}

pub open spec fn spec_sint64s_of(d: SpecFieldData) -> Option<Seq<i64>> {
    match spec_u64s_of(d) {
        None => None,
        Some(vs) => Some(vs.map_values(|v: u64| spec_sint64(v))),
    }
}

pub open spec fn spec_sint32s_of(d: SpecFieldData) -> Option<Seq<i32>> {
    match spec_u64s_of(d) {
        None => None,
        Some(vs) => Some(vs.map_values(|v: u64| spec_sint32(v))),
    }
}

pub open spec fn spec_int32s_of(d: SpecFieldData) -> Option<Seq<i32>> {
    match spec_u64s_of(d) {
        None => None,
        Some(vs) => Some(vs.map_values(|v: u64| spec_int32(v))),
    }
}

pub open spec fn spec_uint32s_of(d: SpecFieldData) -> Option<Seq<u32>> {
    match spec_u64s_of(d) {
        None => None,
        Some(vs) => Some(vs.map_values(|v: u64| spec_uint32(v))),
    }
}

pub open spec fn spec_bools_of(d: SpecFieldData) -> Option<Seq<bool>> {
    match spec_u64s_of(d) {
        None => None,
        Some(vs) => Some(vs.map_values(|v: u64| spec_bool(v))),
    }
}

/// The member type a varint value stands for; values outside the enum are
/// dropped, as unknown enum values are skipped rather than rejected.
pub open spec fn spec_member_type(v: u64) -> Option<RelMemberType> {
    if v == 0 {
        Some(RelMemberType::Node)
    } else if v == 1 {
        Some(RelMemberType::Way)
    } else if v == 2 {
        Some(RelMemberType::Relation)
    } else {
        None
    }
}

/// The member types a varint run stands for, unknown values dropped.
pub open spec fn spec_member_types(vs: Seq<u64>) -> Seq<RelMemberType>
    decreases vs.len(),
{
    if vs.len() == 0 {
        Seq::empty()
    } else {
        spec_member_types(vs.drop_last()) + (match spec_member_type(vs.last()) {
            Some(t) => seq![t],
            None => Seq::empty(),
        })
    }
}

pub open spec fn spec_member_types_of(d: SpecFieldData) -> Option<Seq<RelMemberType>> {
    match spec_u64s_of(d) {
        None => None,
        Some(vs) => Some(spec_member_types(vs)),
    }
}

/// Gathers the varint values a repeated-scalar field contributes.
fn u64s_of(d: &FieldData) -> (r: Result<Vec<u64>, WireError>)
    ensures
        match r {
            Ok(vs) => spec_u64s_of(d@) == Some(vs@),
            Err(_) => spec_u64s_of(d@) is None,
        },
{
    match d {
        FieldData::Varint(v) => {
            let mut out: Vec<u64> = Vec::new();
            out.push(*v);
            proof {
                assert(out@ =~= seq![*v]);
            }
            Ok(out)
        },
        FieldData::Bytes(b) => parse_packed_varints(b),
        _ => Err(WireError::UnexpectedWireType),
    }
}

/// Appends a field's contribution to a zigzag-coded 64-bit column.
fn append_sint64s(dst: &mut Vec<i64>, d: &FieldData) -> (r: Result<(), WireError>)
    ensures
        match r {
            Ok(_) => spec_sint64s_of(d@) matches Some(vs) && final(dst)@ == old(dst)@ + vs,
            Err(_) => spec_sint64s_of(d@) is None,
        },
{
    let vs = match u64s_of(d) {
        Ok(vs) => vs,
        Err(e) => {
            return Err(e);
        },
    };
    let n = vs.len();
    let mut j: usize = 0;
    while j < n
        invariant
            n == vs@.len(),
            j <= n,
            spec_u64s_of(d@) == Some(vs@),
            dst@ == old(dst)@ + vs@.take(j as int).map_values(|v: u64| spec_sint64(v)),
        decreases n - j,
    {
        dst.push(decode_sint64(vs[j]));
        proof {
            assert(vs@.take(j + 1) =~= vs@.take(j as int).push(vs@[j as int]));
            assert(vs@.take(j + 1).map_values(|v: u64| spec_sint64(v)) =~= vs@.take(
                j as int,
            ).map_values(|v: u64| spec_sint64(v)).push(spec_sint64(vs@[j as int])));
        }
        j = j + 1;
    }
    proof {
        assert(vs@.take(n as int) =~= vs@);
    }
    Ok(())
}

/// Appends a field's contribution to a zigzag-coded 32-bit column.
fn append_sint32s(dst: &mut Vec<i32>, d: &FieldData) -> (r: Result<(), WireError>)
    ensures
        match r {
            Ok(_) => spec_sint32s_of(d@) matches Some(vs) && final(dst)@ == old(dst)@ + vs,
            Err(_) => spec_sint32s_of(d@) is None,
        },
{
    let vs = match u64s_of(d) {
        Ok(vs) => vs,
        Err(e) => {
            return Err(e);
        },
    };
    let n = vs.len();
    let mut j: usize = 0;
    while j < n
        invariant
            n == vs@.len(),
            j <= n,
            spec_u64s_of(d@) == Some(vs@),
            dst@ == old(dst)@ + vs@.take(j as int).map_values(|v: u64| spec_sint32(v)),
        decreases n - j,
    {
        dst.push(decode_sint32(vs[j]));
        proof {
            assert(vs@.take(j + 1) =~= vs@.take(j as int).push(vs@[j as int]));
            assert(vs@.take(j + 1).map_values(|v: u64| spec_sint32(v)) =~= vs@.take(
                j as int,
            ).map_values(|v: u64| spec_sint32(v)).push(spec_sint32(vs@[j as int])));
        }
        j = j + 1;
    }
    proof {
        assert(vs@.take(n as int) =~= vs@);
    }
    Ok(())
}

/// Appends a field's contribution to a two's-complement 32-bit column.
fn append_int32s(dst: &mut Vec<i32>, d: &FieldData) -> (r: Result<(), WireError>)
    ensures
        match r {
            Ok(_) => spec_int32s_of(d@) matches Some(vs) && final(dst)@ == old(dst)@ + vs,
            Err(_) => spec_int32s_of(d@) is None,
        },
{
    let vs = match u64s_of(d) {
        Ok(vs) => vs,
        Err(e) => {
            return Err(e);
        },
    };
    let n = vs.len();
    let mut j: usize = 0;
    while j < n
        invariant
            n == vs@.len(),
            j <= n,
            spec_u64s_of(d@) == Some(vs@),
            dst@ == old(dst)@ + vs@.take(j as int).map_values(|v: u64| spec_int32(v)),
        decreases n - j,
    {
        dst.push(decode_int32(vs[j]));
        proof {
            assert(vs@.take(j + 1) =~= vs@.take(j as int).push(vs@[j as int]));
            assert(vs@.take(j + 1).map_values(|v: u64| spec_int32(v)) =~= vs@.take(
                j as int,
            ).map_values(|v: u64| spec_int32(v)).push(spec_int32(vs@[j as int])));
        }
        j = j + 1;
    }
    proof {
        assert(vs@.take(n as int) =~= vs@);
    }
    Ok(())
}

/// Appends a field's contribution to an unsigned 32-bit column.
fn append_uint32s(dst: &mut Vec<u32>, d: &FieldData) -> (r: Result<(), WireError>)
    ensures
        match r {
            Ok(_) => spec_uint32s_of(d@) matches Some(vs) && final(dst)@ == old(dst)@ + vs,
            Err(_) => spec_uint32s_of(d@) is None,
        },
{
    let vs = match u64s_of(d) {
        Ok(vs) => vs,
        Err(e) => {
            return Err(e);
        },
    };
    let n = vs.len();
    let mut j: usize = 0;
    while j < n
        invariant
            n == vs@.len(),
            j <= n,
            spec_u64s_of(d@) == Some(vs@),
            dst@ == old(dst)@ + vs@.take(j as int).map_values(|v: u64| spec_uint32(v)),
        decreases n - j,
    {
        dst.push(decode_uint32(vs[j]));
        proof {
            assert(vs@.take(j + 1) =~= vs@.take(j as int).push(vs@[j as int]));
            assert(vs@.take(j + 1).map_values(|v: u64| spec_uint32(v)) =~= vs@.take(
                j as int,
            ).map_values(|v: u64| spec_uint32(v)).push(spec_uint32(vs@[j as int])));
        }
        j = j + 1;
    }
    proof {
        assert(vs@.take(n as int) =~= vs@);
    }
    Ok(())
}

/// Appends a field's contribution to a boolean column.
fn append_bools(dst: &mut Vec<bool>, d: &FieldData) -> (r: Result<(), WireError>)
    ensures
        match r {
            Ok(_) => spec_bools_of(d@) matches Some(vs) && final(dst)@ == old(dst)@ + vs,
            Err(_) => spec_bools_of(d@) is None,
        },
{
    let vs = match u64s_of(d) {
        Ok(vs) => vs,
        Err(e) => {
            return Err(e);
        },
    };
    let n = vs.len();
    let mut j: usize = 0;
    while j < n
        invariant
            n == vs@.len(),
            j <= n,
            spec_u64s_of(d@) == Some(vs@),
            dst@ == old(dst)@ + vs@.take(j as int).map_values(|v: u64| spec_bool(v)),
        decreases n - j,
    {
        dst.push(decode_bool(vs[j]));
        proof {
            assert(vs@.take(j + 1) =~= vs@.take(j as int).push(vs@[j as int]));
            assert(vs@.take(j + 1).map_values(|v: u64| spec_bool(v)) =~= vs@.take(
                j as int,
            ).map_values(|v: u64| spec_bool(v)).push(spec_bool(vs@[j as int])));
        }
        j = j + 1;
    }
    proof {
        assert(vs@.take(n as int) =~= vs@);
    }
    Ok(())
}

/// Appends a field's contribution to a member-type column, dropping unknown
/// enum values.
fn append_member_types(dst: &mut Vec<RelMemberType>, d: &FieldData) -> (r: Result<(), WireError>)
    ensures
        match r {
            Ok(_) => spec_member_types_of(d@) matches Some(vs) && final(dst)@ == old(dst)@ + vs,
            Err(_) => spec_member_types_of(d@) is None,
        },
{
    let vs = match u64s_of(d) {
        Ok(vs) => vs,
        Err(e) => {
            return Err(e);
        },
    };
    let n = vs.len();
    let mut j: usize = 0;
    while j < n
        invariant
            n == vs@.len(),
            j <= n,
            spec_u64s_of(d@) == Some(vs@),
            dst@ == old(dst)@ + spec_member_types(vs@.take(j as int)),
        decreases n - j,
    {
        let v = vs[j];
        if v == 0 {
            dst.push(RelMemberType::Node);
        } else if v == 1 {
            dst.push(RelMemberType::Way);
        } else if v == 2 {
            dst.push(RelMemberType::Relation);
        }
        proof {
            assert(vs@.take(j + 1).drop_last() =~= vs@.take(j as int));
            assert(vs@.take(j + 1).last() == vs@[j as int]);
        }
        j = j + 1;
    }
    proof {
        assert(vs@.take(n as int) =~= vs@);
    }
    Ok(())
}

/// One step of decoding element metadata. Fields: version, timestamp,
/// changeset, uid, user name index, visibility.
pub open spec fn info_step(st: InfoData, f: SpecField) -> Option<InfoData> {
    if f.num == 1 {
        match f.data {
            SpecFieldData::Varint(v) => Some(InfoData { version: Some(spec_int32(v)), ..st }),
            _ => None,
        }
    } else if f.num == 2 {
        match f.data {
            SpecFieldData::Varint(v) => Some(InfoData { timestamp: Some(spec_int64(v)), ..st }),
            _ => None,
        }
    } else if f.num == 3 {
        match f.data {
            SpecFieldData::Varint(v) => Some(InfoData { changeset: Some(spec_int64(v)), ..st }),
            _ => None,
        }
    } else if f.num == 4 {
        match f.data {
            SpecFieldData::Varint(v) => Some(InfoData { uid: Some(spec_int32(v)), ..st }),
            _ => None,
        }
    } else if f.num == 5 {
        match f.data {
            SpecFieldData::Varint(v) => Some(InfoData { user_sid: Some(spec_uint32(v)), ..st }),
            _ => None,
        }
    } else if f.num == 6 {
        match f.data {
            SpecFieldData::Varint(v) => Some(InfoData { visible: Some(spec_bool(v)), ..st }),
            _ => None,
        }
    } else {
        Some(st)
    }
}

pub open spec fn info_empty() -> InfoData {
    InfoData {
        version: None,
        timestamp: None,
        changeset: None,
        uid: None,
        user_sid: None,
        visible: None,
    }
}

pub open spec fn info_run(st: InfoData, fs: Seq<SpecField>, i: int) -> Option<InfoData>
    decreases fs.len() - i,
{
    if i < 0 || i > fs.len() {
        None
    } else if i == fs.len() {
        Some(st)
    } else {
        match info_step(st, fs[i]) {
            None => None,
            Some(st2) => info_run(st2, fs, i + 1),
        }
    }
}

/// The metadata message a byte run decodes to.
pub open spec fn spec_info(s: Seq<u8>) -> Option<InfoData> {
    match spec_fields(s) {
        None => None,
        Some(fs) => info_run(info_empty(), fs, 0),
    }
}

/// Decodes an element metadata message.
pub fn parse_info(s: &Vec<u8>) -> (r: Result<InfoData, WireError>)
    ensures
        match r {
            Ok(m) => spec_info(s@) == Some(m),
            Err(_) => spec_info(s@) is None,
        },
{
    let fs = match parse_fields(s) {
        Ok(fs) => fs,
        Err(e) => {
            return Err(e);
        },
    };
    let ghost fsv = fs.deep_view();
    let mut m = InfoData {
        version: None,
        timestamp: None,
        changeset: None,
        uid: None,
        user_sid: None,
        visible: None,
    };
    let n = fs.len();
    let mut i: usize = 0;
    while i < n
        invariant
            n == fs@.len(),
            i <= n,
            fsv == fs.deep_view(),
            spec_fields(s@) == Some(fsv),
            spec_info(s@) == info_run(m, fsv, i as int),
        decreases n - i,
    {
        let f = &fs[i];
        proof {
            assert(fsv[i as int] == fs@[i as int]@);
        }
        if f.num == 1 {
            match &f.data {
                FieldData::Varint(v) => {
                    m.version = Some(decode_int32(*v));
                },
                _ => {
                    return Err(WireError::UnexpectedWireType);
                },
            }
        } else if f.num == 2 {
            match &f.data {
                FieldData::Varint(v) => {
                    m.timestamp = Some(decode_int64(*v));
                },
                _ => {
                    return Err(WireError::UnexpectedWireType);
                },
            }
        } else if f.num == 3 {
            match &f.data {
                FieldData::Varint(v) => {
                    m.changeset = Some(decode_int64(*v));
                },
                _ => {
                    return Err(WireError::UnexpectedWireType);
                },
            }
        } else if f.num == 4 {
            match &f.data {
                FieldData::Varint(v) => {
                    m.uid = Some(decode_int32(*v));
                },
                _ => {
                    return Err(WireError::UnexpectedWireType);
                },
            }
        } else if f.num == 5 {
            match &f.data {
                FieldData::Varint(v) => {
                    m.user_sid = Some(decode_uint32(*v));
                },
                _ => {
                    return Err(WireError::UnexpectedWireType);
                },
            }
        } else if f.num == 6 {
            match &f.data {
                FieldData::Varint(v) => {
                    m.visible = Some(decode_bool(*v));
                },
                _ => {
                    return Err(WireError::UnexpectedWireType);
                },
            }
        }
        i = i + 1;
    }
    Ok(m)
}


// The step/run/parse shape below is shared by every message: `X_step` folds
// one field into the partial message, `X_run` folds the remaining fields and
// finishes, and `parse_X` is the decoder held to them.

/// One step of decoding a node. Fields: id (zigzag, required), key and
/// value index columns, metadata, and zigzag lat/lon (required).
pub open spec fn node_step(
    st: (Option<i64>, Seq<u32>, Seq<u32>, Option<InfoData>, Option<i64>, Option<i64>),
    f: SpecField,
) -> Option<(Option<i64>, Seq<u32>, Seq<u32>, Option<InfoData>, Option<i64>, Option<i64>)> {
    if f.num == 1 {
        match f.data {
            SpecFieldData::Varint(v) => Some(
                (Some(spec_sint64(v)), st.1, st.2, st.3, st.4, st.5),
            ),
            _ => None,
        }
    } else if f.num == 2 {
        match spec_uint32s_of(f.data) {
            Some(vs) => Some((st.0, st.1 + vs, st.2, st.3, st.4, st.5)),
            None => None,
        }
    } else if f.num == 3 {
        match spec_uint32s_of(f.data) {
            Some(vs) => Some((st.0, st.1, st.2 + vs, st.3, st.4, st.5)),
            None => None,
        }
    } else if f.num == 4 {
        match f.data {
            SpecFieldData::Bytes(b) => match spec_info(b) {
                Some(m) => Some((st.0, st.1, st.2, Some(m), st.4, st.5)),
                None => None,
            },
            _ => None,
        }
    } else if f.num == 8 {
        match f.data {
            SpecFieldData::Varint(v) => Some(
                (st.0, st.1, st.2, st.3, Some(spec_sint64(v)), st.5),
            ),
            _ => None,
        }
    } else if f.num == 9 {
        match f.data {
            SpecFieldData::Varint(v) => Some(
                (st.0, st.1, st.2, st.3, st.4, Some(spec_sint64(v))),
            ),
            _ => None,
        }
    } else {
        Some(st)
    }
}

pub open spec fn node_run(
    st: (Option<i64>, Seq<u32>, Seq<u32>, Option<InfoData>, Option<i64>, Option<i64>),
    fs: Seq<SpecField>,
    i: int,
) -> Option<SpecNode>
    decreases fs.len() - i,
{
    if i < 0 || i > fs.len() {
        None
    } else if i == fs.len() {
        match (st.0, st.4, st.5) {
            (Some(id), Some(lat), Some(lon)) => Some(
                SpecNode { id, keys: st.1, vals: st.2, info: st.3, lat, lon },
            ),
            _ => None,
        }
    } else {
        match node_step(st, fs[i]) {
            None => None,
            Some(st2) => node_run(st2, fs, i + 1),
        }
    }
}

/// The node message a byte run decodes to.
pub open spec fn spec_node(s: Seq<u8>) -> Option<SpecNode> {
    match spec_fields(s) {
        None => None,
        Some(fs) => node_run((None, Seq::empty(), Seq::empty(), None, None, None), fs, 0),
    }
}

/// Decodes a node message.
pub fn parse_node(s: &Vec<u8>) -> (r: Result<NodeData, WireError>)
    ensures
        match r {
            Ok(m) => spec_node(s@) == Some(m@),
            Err(_) => spec_node(s@) is None,
        },
{
    let fs = match parse_fields(s) {
        Ok(fs) => fs,
        Err(e) => {
            return Err(e);
        },
    };
    let ghost fsv = fs.deep_view();
    let mut id: Option<i64> = None;
    let mut keys: Vec<u32> = Vec::new();
    let mut vals: Vec<u32> = Vec::new();
    let mut info: Option<InfoData> = None;
    let mut lat: Option<i64> = None;
    let mut lon: Option<i64> = None;
    let n = fs.len();
    let mut i: usize = 0;
    while i < n
        invariant
            n == fs@.len(),
            i <= n,
            fsv == fs.deep_view(),
            spec_fields(s@) == Some(fsv),
            spec_node(s@) == node_run((id, keys@, vals@, info, lat, lon), fsv, i as int),
        decreases n - i,
    {
        let f = &fs[i];
        proof {
            assert(fsv[i as int] == fs@[i as int]@);
        }
        if f.num == 1 {
            match &f.data {
                FieldData::Varint(v) => {
                    id = Some(decode_sint64(*v));
                },
                _ => {
                    return Err(WireError::UnexpectedWireType);
                },
            }
        } else if f.num == 2 {
            match append_uint32s(&mut keys, &f.data) {
                Ok(_) => {},
                Err(e) => {
                    return Err(e);
                },
            }
        } else if f.num == 3 {
            match append_uint32s(&mut vals, &f.data) {
                Ok(_) => {},
                Err(e) => {
                    return Err(e);
                },
            }
        } else if f.num == 4 {
            match &f.data {
                FieldData::Bytes(b) => match parse_info(b) {
                    Ok(m) => {
                        info = Some(m);
                    },
                    Err(e) => {
                        return Err(e);
                    },
                },
                _ => {
                    return Err(WireError::UnexpectedWireType);
                },
            }
        } else if f.num == 8 {
            match &f.data {
                FieldData::Varint(v) => {
                    lat = Some(decode_sint64(*v));
                },
                _ => {
                    return Err(WireError::UnexpectedWireType);
                },
            }
        } else if f.num == 9 {
            match &f.data {
                FieldData::Varint(v) => {
                    lon = Some(decode_sint64(*v));
                },
                _ => {
                    return Err(WireError::UnexpectedWireType);
                },
            }
        }
        i = i + 1;
    }
    match (id, lat, lon) {
        (Some(id), Some(lat), Some(lon)) => Ok(NodeData { id, keys, vals, info, lat, lon }),
        _ => Err(WireError::MissingRequiredField),
    }
}

/// One step of decoding a way. Fields: id (required), key and value index
/// columns, metadata, and the zigzag delta-coded reference column.
pub open spec fn way_step(
    st: (Option<i64>, Seq<u32>, Seq<u32>, Option<InfoData>, Seq<i64>),
    f: SpecField,
) -> Option<(Option<i64>, Seq<u32>, Seq<u32>, Option<InfoData>, Seq<i64>)> {
    if f.num == 1 {
        match f.data {
            SpecFieldData::Varint(v) => Some((Some(spec_int64(v)), st.1, st.2, st.3, st.4)),
            _ => None,
        }
    } else if f.num == 2 {
        match spec_uint32s_of(f.data) {
            Some(vs) => Some((st.0, st.1 + vs, st.2, st.3, st.4)),
            None => None,
        }
    } else if f.num == 3 {
        match spec_uint32s_of(f.data) {
            Some(vs) => Some((st.0, st.1, st.2 + vs, st.3, st.4)),
            None => None,
        }
    } else if f.num == 4 {
        match f.data {
            SpecFieldData::Bytes(b) => match spec_info(b) {
                Some(m) => Some((st.0, st.1, st.2, Some(m), st.4)),
                None => None,
            },
            _ => None,
        }
    } else if f.num == 8 {
        match spec_sint64s_of(f.data) {
            Some(vs) => Some((st.0, st.1, st.2, st.3, st.4 + vs)),
            None => None,
        }
    } else {
        Some(st)
    }
}

pub open spec fn way_run(
    st: (Option<i64>, Seq<u32>, Seq<u32>, Option<InfoData>, Seq<i64>),
    fs: Seq<SpecField>,
    i: int,
) -> Option<SpecWay>
    decreases fs.len() - i,
{
    if i < 0 || i > fs.len() {
        None
    } else if i == fs.len() {
        match st.0 {
            Some(id) => Some(SpecWay { id, keys: st.1, vals: st.2, info: st.3, refs: st.4 }),
            None => None,
        }
    } else {
        match way_step(st, fs[i]) {
            None => None,
            Some(st2) => way_run(st2, fs, i + 1),
        }
    }
}

/// The way message a byte run decodes to.
pub open spec fn spec_way(s: Seq<u8>) -> Option<SpecWay> {
    match spec_fields(s) {
        None => None,
        Some(fs) => way_run((None, Seq::empty(), Seq::empty(), None, Seq::empty()), fs, 0),
    }
}

/// Decodes a way message.
pub fn parse_way(s: &Vec<u8>) -> (r: Result<WayData, WireError>)
    ensures
        match r {
            Ok(m) => spec_way(s@) == Some(m@),
            Err(_) => spec_way(s@) is None,
        },
{
    let fs = match parse_fields(s) {
        Ok(fs) => fs,
        Err(e) => {
            return Err(e);
        },
    };
    let ghost fsv = fs.deep_view();
    let mut id: Option<i64> = None;
    let mut keys: Vec<u32> = Vec::new();
    let mut vals: Vec<u32> = Vec::new();
    let mut info: Option<InfoData> = None;
    let mut refs: Vec<i64> = Vec::new();
    let n = fs.len();
    let mut i: usize = 0;
    while i < n
        invariant
            n == fs@.len(),
            i <= n,
            fsv == fs.deep_view(),
            spec_fields(s@) == Some(fsv),
            spec_way(s@) == way_run((id, keys@, vals@, info, refs@), fsv, i as int),
        decreases n - i,
    {
        let f = &fs[i];
        proof {
            assert(fsv[i as int] == fs@[i as int]@);
        }
        if f.num == 1 {
            match &f.data {
                FieldData::Varint(v) => {
                    id = Some(decode_int64(*v));
                },
                _ => {
                    return Err(WireError::UnexpectedWireType);
                },
            }
        } else if f.num == 2 {
            match append_uint32s(&mut keys, &f.data) {
                Ok(_) => {},
                Err(e) => {
                    return Err(e);
                },
            }
        } else if f.num == 3 {
            match append_uint32s(&mut vals, &f.data) {
                Ok(_) => {},
                Err(e) => {
                    return Err(e);
                },
            }
        } else if f.num == 4 {
            match &f.data {
                FieldData::Bytes(b) => match parse_info(b) {
                    Ok(m) => {
                        info = Some(m);
                    },
                    Err(e) => {
                        return Err(e);
                    },
                },
                _ => {
                    return Err(WireError::UnexpectedWireType);
                },
            }
        } else if f.num == 8 {
            match append_sint64s(&mut refs, &f.data) {
                Ok(_) => {},
                Err(e) => {
                    return Err(e);
                },
            }
        }
        i = i + 1;
    }
    match id {
        Some(id) => Ok(WayData { id, keys, vals, info, refs }),
        None => Err(WireError::MissingRequiredField),
    }
}

/// One step of decoding a relation. Fields: id (required), key and value
/// index columns, metadata, and the three parallel member columns (role
/// index, zigzag delta-coded member id, member type).
pub open spec fn relation_step(
    st: (Option<i64>, Seq<u32>, Seq<u32>, Option<InfoData>, Seq<i32>, Seq<i64>, Seq<RelMemberType>),
    f: SpecField,
) -> Option<
    (Option<i64>, Seq<u32>, Seq<u32>, Option<InfoData>, Seq<i32>, Seq<i64>, Seq<RelMemberType>),
> {
    if f.num == 1 {
        match f.data {
            SpecFieldData::Varint(v) => Some(
                (Some(spec_int64(v)), st.1, st.2, st.3, st.4, st.5, st.6),
            ),
            _ => None,
        }
    } else if f.num == 2 {
        match spec_uint32s_of(f.data) {
            Some(vs) => Some((st.0, st.1 + vs, st.2, st.3, st.4, st.5, st.6)),
            None => None,
        }
    } else if f.num == 3 {
        match spec_uint32s_of(f.data) {
            Some(vs) => Some((st.0, st.1, st.2 + vs, st.3, st.4, st.5, st.6)),
            None => None,
        }
    } else if f.num == 4 {
        match f.data {
            SpecFieldData::Bytes(b) => match spec_info(b) {
                Some(m) => Some((st.0, st.1, st.2, Some(m), st.4, st.5, st.6)),
                None => None,
            },
            _ => None,
        }
    } else if f.num == 8 {
        match spec_int32s_of(f.data) {
            Some(vs) => Some((st.0, st.1, st.2, st.3, st.4 + vs, st.5, st.6)),
            None => None,
        }
    } else if f.num == 9 {
        match spec_sint64s_of(f.data) {
            Some(vs) => Some((st.0, st.1, st.2, st.3, st.4, st.5 + vs, st.6)),
            None => None,
        }
    } else if f.num == 10 {
        match spec_member_types_of(f.data) {
            Some(vs) => Some((st.0, st.1, st.2, st.3, st.4, st.5, st.6 + vs)),
            None => None,
        }
    } else {
        Some(st)
    }
}

pub open spec fn relation_run(
    st: (Option<i64>, Seq<u32>, Seq<u32>, Option<InfoData>, Seq<i32>, Seq<i64>, Seq<RelMemberType>),
    fs: Seq<SpecField>,
    i: int,
) -> Option<SpecRelation>
    decreases fs.len() - i,
{
    if i < 0 || i > fs.len() {
        None
    } else if i == fs.len() {
        match st.0 {
            Some(id) => Some(
                SpecRelation {
                    id,
                    keys: st.1,
                    vals: st.2,
                    info: st.3,
                    roles_sid: st.4,
                    memids: st.5,
                    types: st.6,
                },
            ),
            None => None,
        }
    } else {
        match relation_step(st, fs[i]) {
            None => None,
            Some(st2) => relation_run(st2, fs, i + 1),
        }
    }
}

/// The relation message a byte run decodes to.
pub open spec fn spec_relation(s: Seq<u8>) -> Option<SpecRelation> {
    match spec_fields(s) {
        None => None,
        Some(fs) => relation_run(
            (None, Seq::empty(), Seq::empty(), None, Seq::empty(), Seq::empty(), Seq::empty()),
            fs,
            0,
        ),
    }
}

/// Decodes a relation message.
pub fn parse_relation(s: &Vec<u8>) -> (r: Result<RelationData, WireError>)
    ensures
        match r {
            Ok(m) => spec_relation(s@) == Some(m@),
            Err(_) => spec_relation(s@) is None,
        },
{
    let fs = match parse_fields(s) {
        Ok(fs) => fs,
        Err(e) => {
            return Err(e);
        },
    };
    let ghost fsv = fs.deep_view();
    let mut id: Option<i64> = None;
    let mut keys: Vec<u32> = Vec::new();
    let mut vals: Vec<u32> = Vec::new();
    let mut info: Option<InfoData> = None;
    let mut roles_sid: Vec<i32> = Vec::new();
    let mut memids: Vec<i64> = Vec::new();
    let mut types: Vec<RelMemberType> = Vec::new();
    let n = fs.len();
    let mut i: usize = 0;
    while i < n
        invariant
            n == fs@.len(),
            i <= n,
            fsv == fs.deep_view(),
            spec_fields(s@) == Some(fsv),
            spec_relation(s@) == relation_run(
                (id, keys@, vals@, info, roles_sid@, memids@, types@),
                fsv,
                i as int,
            ),
        decreases n - i,
    {
        let f = &fs[i];
        proof {
            assert(fsv[i as int] == fs@[i as int]@);
        }
        if f.num == 1 {
            match &f.data {
                FieldData::Varint(v) => {
                    id = Some(decode_int64(*v));
                },
                _ => {
                    return Err(WireError::UnexpectedWireType);
                },
            }
        } else if f.num == 2 {
            match append_uint32s(&mut keys, &f.data) {
                Ok(_) => {},
                Err(e) => {
                    return Err(e);
                },
            }
        } else if f.num == 3 {
            match append_uint32s(&mut vals, &f.data) {
                Ok(_) => {},
                Err(e) => {
                    return Err(e);
                },
            }
        } else if f.num == 4 {
            match &f.data {
                FieldData::Bytes(b) => match parse_info(b) {
                    Ok(m) => {
                        info = Some(m);
                    },
                    Err(e) => {
                        return Err(e);
                    },
                },
                _ => {
                    return Err(WireError::UnexpectedWireType);
                },
            }
        } else if f.num == 8 {
            match append_int32s(&mut roles_sid, &f.data) {
                Ok(_) => {},
                Err(e) => {
                    return Err(e);
                },
            }
        } else if f.num == 9 {
            match append_sint64s(&mut memids, &f.data) {
                Ok(_) => {},
                Err(e) => {
                    return Err(e);
                },
            }
        } else if f.num == 10 {
            match append_member_types(&mut types, &f.data) {
                Ok(_) => {},
                Err(e) => {
                    return Err(e);
                },
            }
        }
        i = i + 1;
    }
    match id {
        Some(id) => Ok(RelationData { id, keys, vals, info, roles_sid, memids, types }),
        None => Err(WireError::MissingRequiredField),
    }
}



/// The spec form of the stored metadata columns of a dense node run.
#[verifier::ext_equal]
pub struct SpecDenseInfo {
    pub versions: Seq<i32>,
    pub timestamps: Seq<i64>,
    pub changesets: Seq<i64>,
    pub uids: Seq<i32>,
    pub user_sids: Seq<i32>,
    pub visibles: Seq<bool>,
}

/// The spec form of a stored dense node run.
#[verifier::ext_equal]
pub struct SpecDense {
    pub ids: Seq<i64>,
    pub lats: Seq<i64>,
    pub lons: Seq<i64>,
    pub keys_vals: Seq<i32>,
    pub denseinfo: Option<SpecDenseInfo>,
}

/// The spec form of a stored group of elements.
#[verifier::ext_equal]
pub struct SpecGroup {
    pub nodes: Seq<SpecNode>,
    pub dense: SpecDense,
    pub ways: Seq<SpecWay>,
    pub relations: Seq<SpecRelation>,
}

/// The spec form of a primitive block.
#[verifier::ext_equal]
pub struct SpecPrimitiveBlock {
    pub stringtable: Seq<Seq<u8>>,
    pub groups: Seq<SpecGroup>,
    pub granularity: i32,
    pub lat_offset: i64,
    pub lon_offset: i64,
    pub date_granularity: i32,
}

/// The spec form of a header block.
#[verifier::ext_equal]
pub struct SpecHeaderBlock {
    pub required_features: Seq<Seq<char>>,
    pub optional_features: Seq<Seq<char>>,
}

/// The spec form of a blob header message.
#[verifier::ext_equal]
pub struct SpecBlobHeader {
    pub blob_type: Seq<char>,
    pub datasize: i32,
}

/// The spec form of a blob payload message.
#[verifier::ext_equal]
pub struct SpecBlobData {
    pub raw: Option<Seq<u8>>,
    pub zlib_data: Option<Seq<u8>>,
}

impl View for DenseInfoData {
    type V = SpecDenseInfo;

    open spec fn view(&self) -> SpecDenseInfo {
        SpecDenseInfo {
            versions: self.versions@,
            timestamps: self.timestamps@,
            changesets: self.changesets@,
            uids: self.uids@,
            user_sids: self.user_sids@,
            visibles: self.visibles@,
        }
    }
}

impl View for DenseData {
    type V = SpecDense;

    open spec fn view(&self) -> SpecDense {
        SpecDense {
            ids: self.ids@,
            lats: self.lats@,
            lons: self.lons@,
            keys_vals: self.keys_vals@,
            denseinfo: match self.denseinfo {
                Some(ref di) => Some(di@),
                None => None,
            },
        }
    }
}

impl View for PrimitiveGroupData {
    type V = SpecGroup;

    open spec fn view(&self) -> SpecGroup {
        SpecGroup {
            nodes: self.nodes.deep_view(),
            dense: self.dense@,
            ways: self.ways.deep_view(),
            relations: self.relations.deep_view(),
        }
    }
}

impl View for PrimitiveBlock {
    type V = SpecPrimitiveBlock;

    open spec fn view(&self) -> SpecPrimitiveBlock {
        SpecPrimitiveBlock {
            stringtable: self.stringtable.deep_view(),
            groups: self.groups_data.deep_view(),
            granularity: self.granularity,
            lat_offset: self.lat_offset,
            lon_offset: self.lon_offset,
            date_granularity: self.date_granularity,
        }
    }
}

impl View for HeaderBlock {
    type V = SpecHeaderBlock;

    open spec fn view(&self) -> SpecHeaderBlock {
        SpecHeaderBlock {
            required_features: self.required_features.deep_view(),
            optional_features: self.optional_features.deep_view(),
        }
    }
}

impl View for BlobHeader {
    type V = SpecBlobHeader;

    open spec fn view(&self) -> SpecBlobHeader {
        SpecBlobHeader { blob_type: self.blob_type@, datasize: self.datasize }
    }
}

impl View for BlobData {
    type V = SpecBlobData;

    open spec fn view(&self) -> SpecBlobData {
        SpecBlobData {
            raw: match self.raw {
                Some(ref b) => Some(b@),
                None => None,
            },
            zlib_data: match self.zlib_data {
                Some(ref b) => Some(b@),
                None => None,
            },
        }
    }
}

impl DeepView for NodeData {
    type V = SpecNode;

    open spec fn deep_view(&self) -> SpecNode {
        self@
    }
}

impl DeepView for WayData {
    type V = SpecWay;

    open spec fn deep_view(&self) -> SpecWay {
        self@
    }
}

impl DeepView for RelationData {
    type V = SpecRelation;

    open spec fn deep_view(&self) -> SpecRelation {
        self@
    }
}

impl DeepView for PrimitiveGroupData {
    type V = SpecGroup;

    open spec fn deep_view(&self) -> SpecGroup {
        self@
    }
}

/// One step of decoding the metadata columns of a dense node run. Fields:
/// versions, delta-coded timestamps, changesets, user ids and user name
/// indices, and visibility flags.
pub open spec fn dense_info_step(
    st: (Seq<i32>, Seq<i64>, Seq<i64>, Seq<i32>, Seq<i32>, Seq<bool>),
    f: SpecField,
) -> Option<(Seq<i32>, Seq<i64>, Seq<i64>, Seq<i32>, Seq<i32>, Seq<bool>)> {
    if f.num == 1 {
        match spec_int32s_of(f.data) {
            Some(vs) => Some((st.0 + vs, st.1, st.2, st.3, st.4, st.5)),
            None => None,
        }
    } else if f.num == 2 {
        match spec_sint64s_of(f.data) {
            Some(vs) => Some((st.0, st.1 + vs, st.2, st.3, st.4, st.5)),
            None => None,
        }
    } else if f.num == 3 {
        match spec_sint64s_of(f.data) {
            Some(vs) => Some((st.0, st.1, st.2 + vs, st.3, st.4, st.5)),
            None => None,
        }
    } else if f.num == 4 {
        match spec_sint32s_of(f.data) {
            Some(vs) => Some((st.0, st.1, st.2, st.3 + vs, st.4, st.5)),
            None => None,
        }
    } else if f.num == 5 {
        match spec_sint32s_of(f.data) {
            Some(vs) => Some((st.0, st.1, st.2, st.3, st.4 + vs, st.5)),
            None => None,
        }
    } else if f.num == 6 {
        match spec_bools_of(f.data) {
            Some(vs) => Some((st.0, st.1, st.2, st.3, st.4, st.5 + vs)),
            None => None,
        }
    } else {
        Some(st)
    }
}

pub open spec fn dense_info_run(
    st: (Seq<i32>, Seq<i64>, Seq<i64>, Seq<i32>, Seq<i32>, Seq<bool>),
    fs: Seq<SpecField>,
    i: int,
) -> Option<SpecDenseInfo>
    decreases fs.len() - i,
{
    if i < 0 || i > fs.len() {
        None
    } else if i == fs.len() {
        Some(
            SpecDenseInfo {
                versions: st.0,
                timestamps: st.1,
                changesets: st.2,
                uids: st.3,
                user_sids: st.4,
                visibles: st.5,
            },
        )
    } else {
        match dense_info_step(st, fs[i]) {
            None => None,
            Some(st2) => dense_info_run(st2, fs, i + 1),
        }
    }
}

/// The dense metadata message a byte run decodes to.
pub open spec fn spec_dense_info(s: Seq<u8>) -> Option<SpecDenseInfo> {
    match spec_fields(s) {
        None => None,
        Some(fs) => dense_info_run(
            (Seq::empty(), Seq::empty(), Seq::empty(), Seq::empty(), Seq::empty(), Seq::empty()),
            fs,
            0,
        ),
    }
}

/// Decodes the metadata columns of a dense node run.
pub fn parse_dense_info(s: &Vec<u8>) -> (r: Result<DenseInfoData, WireError>)
    ensures
        match r {
            Ok(m) => spec_dense_info(s@) == Some(m@),
            Err(_) => spec_dense_info(s@) is None,
        },
{
    let fs = match parse_fields(s) {
        Ok(fs) => fs,
        Err(e) => {
            return Err(e);
        },
    };
    let ghost fsv = fs.deep_view();
    let mut versions: Vec<i32> = Vec::new();
    let mut timestamps: Vec<i64> = Vec::new();
    let mut changesets: Vec<i64> = Vec::new();
    let mut uids: Vec<i32> = Vec::new();
    let mut user_sids: Vec<i32> = Vec::new();
    let mut visibles: Vec<bool> = Vec::new();
    let n = fs.len();
    let mut i: usize = 0;
    while i < n
        invariant
            n == fs@.len(),
            i <= n,
            fsv == fs.deep_view(),
            spec_fields(s@) == Some(fsv),
            spec_dense_info(s@) == dense_info_run(
                (versions@, timestamps@, changesets@, uids@, user_sids@, visibles@),
                fsv,
                i as int,
            ),
        decreases n - i,
    {
        let f = &fs[i];
        proof {
            assert(fsv[i as int] == fs@[i as int]@);
        }
        if f.num == 1 {
            match append_int32s(&mut versions, &f.data) {
                Ok(_) => {},
                Err(e) => {
                    return Err(e);
                },
            }
        } else if f.num == 2 {
            match append_sint64s(&mut timestamps, &f.data) {
                Ok(_) => {},
                Err(e) => {
                    return Err(e);
                },
            }
        } else if f.num == 3 {
            match append_sint64s(&mut changesets, &f.data) {
                Ok(_) => {},
                Err(e) => {
                    return Err(e);
                },
            }
        } else if f.num == 4 {
            match append_sint32s(&mut uids, &f.data) {
                Ok(_) => {},
                Err(e) => {
                    return Err(e);
                },
            }
        } else if f.num == 5 {
            match append_sint32s(&mut user_sids, &f.data) {
                Ok(_) => {},
                Err(e) => {
                    return Err(e);
                },
            }
        } else if f.num == 6 {
            match append_bools(&mut visibles, &f.data) {
                Ok(_) => {},
                Err(e) => {
                    return Err(e);
                },
            }
        }
        i = i + 1;
    }
    Ok(DenseInfoData { versions, timestamps, changesets, uids, user_sids, visibles })
}

/// One step of decoding a dense node run. Fields: delta-coded ids, the
/// metadata columns, delta-coded coordinates, and the flattened key/value
/// index column.
pub open spec fn dense_step(
    st: (Seq<i64>, Option<SpecDenseInfo>, Seq<i64>, Seq<i64>, Seq<i32>),
    f: SpecField,
) -> Option<(Seq<i64>, Option<SpecDenseInfo>, Seq<i64>, Seq<i64>, Seq<i32>)> {
    if f.num == 1 {
        match spec_sint64s_of(f.data) {
            Some(vs) => Some((st.0 + vs, st.1, st.2, st.3, st.4)),
            None => None,
        }
    } else if f.num == 5 {
        match f.data {
            SpecFieldData::Bytes(b) => match spec_dense_info(b) {
                Some(di) => Some((st.0, Some(di), st.2, st.3, st.4)),
                None => None,
            },
            _ => None,
        }
    } else if f.num == 8 {
        match spec_sint64s_of(f.data) {
            Some(vs) => Some((st.0, st.1, st.2 + vs, st.3, st.4)),
            None => None,
        }
    } else if f.num == 9 {
        match spec_sint64s_of(f.data) {
            Some(vs) => Some((st.0, st.1, st.2, st.3 + vs, st.4)),
            None => None,
        }
    } else if f.num == 10 {
        match spec_int32s_of(f.data) {
            Some(vs) => Some((st.0, st.1, st.2, st.3, st.4 + vs)),
            None => None,
        }
    } else {
        Some(st)
    }
}

pub open spec fn dense_run(
    st: (Seq<i64>, Option<SpecDenseInfo>, Seq<i64>, Seq<i64>, Seq<i32>),
    fs: Seq<SpecField>,
    i: int,
) -> Option<SpecDense>
    decreases fs.len() - i,
{
    if i < 0 || i > fs.len() {
        None
    } else if i == fs.len() {
        Some(SpecDense { ids: st.0, lats: st.2, lons: st.3, keys_vals: st.4, denseinfo: st.1 })
    } else {
        match dense_step(st, fs[i]) {
            None => None,
            Some(st2) => dense_run(st2, fs, i + 1),
        }
    }
}

/// The dense node run a byte run decodes to.
pub open spec fn spec_dense(s: Seq<u8>) -> Option<SpecDense> {
    match spec_fields(s) {
        None => None,
        Some(fs) => dense_run((Seq::empty(), None, Seq::empty(), Seq::empty(), Seq::empty()), fs, 0),
    }
}

/// Decodes a dense node run message.
pub fn parse_dense(s: &Vec<u8>) -> (r: Result<DenseData, WireError>)
    ensures
        match r {
            Ok(m) => spec_dense(s@) == Some(m@),
            Err(_) => spec_dense(s@) is None,
        },
{
    let fs = match parse_fields(s) {
        Ok(fs) => fs,
        Err(e) => {
            return Err(e);
        },
    };
    let ghost fsv = fs.deep_view();
    let mut ids: Vec<i64> = Vec::new();
    let mut denseinfo: Option<DenseInfoData> = None;
    let mut lats: Vec<i64> = Vec::new();
    let mut lons: Vec<i64> = Vec::new();
    let mut keys_vals: Vec<i32> = Vec::new();
    let n = fs.len();
    let mut i: usize = 0;
    while i < n
        invariant
            n == fs@.len(),
            i <= n,
            fsv == fs.deep_view(),
            spec_fields(s@) == Some(fsv),
            spec_dense(s@) == dense_run(
                (
                    ids@,
                    match denseinfo {
                        Some(ref di) => Some(di@),
                        None => None,
                    },
                    lats@,
                    lons@,
                    keys_vals@,
                ),
                fsv,
                i as int,
            ),
        decreases n - i,
    {
        let f = &fs[i];
        proof {
            assert(fsv[i as int] == fs@[i as int]@);
        }
        if f.num == 1 {
            match append_sint64s(&mut ids, &f.data) {
                Ok(_) => {},
                Err(e) => {
                    return Err(e);
                },
            }
        } else if f.num == 5 {
            match &f.data {
                FieldData::Bytes(b) => match parse_dense_info(b) {
                    Ok(di) => {
                        denseinfo = Some(di);
                    },
                    Err(e) => {
                        return Err(e);
                    },
                },
                _ => {
                    return Err(WireError::UnexpectedWireType);
                },
            }
        } else if f.num == 8 {
            match append_sint64s(&mut lats, &f.data) {
                Ok(_) => {},
                Err(e) => {
                    return Err(e);
                },
            }
        } else if f.num == 9 {
            match append_sint64s(&mut lons, &f.data) {
                Ok(_) => {},
                Err(e) => {
                    return Err(e);
                },
            }
        } else if f.num == 10 {
            match append_int32s(&mut keys_vals, &f.data) {
                Ok(_) => {},
                Err(e) => {
                    return Err(e);
                },
            }
        }
        i = i + 1;
    }
    Ok(DenseData { ids, lats, lons, keys_vals, denseinfo })
}

/// One step of decoding a stringtable: its single field appends one raw
/// byte string.
pub open spec fn string_table_step(st: Seq<Seq<u8>>, f: SpecField) -> Option<Seq<Seq<u8>>> {
    if f.num == 1 {
        match f.data {
            SpecFieldData::Bytes(b) => Some(st.push(b)),
            _ => None,
        }
    } else {
        Some(st)
    }
}

pub open spec fn string_table_run(st: Seq<Seq<u8>>, fs: Seq<SpecField>, i: int) -> Option<
    Seq<Seq<u8>>,
>
    decreases fs.len() - i,
{
    if i < 0 || i > fs.len() {
        None
    } else if i == fs.len() {
        Some(st)
    } else {
        match string_table_step(st, fs[i]) {
            None => None,
            Some(st2) => string_table_run(st2, fs, i + 1),
        }
    }
}

/// The stringtable a byte run decodes to.
pub open spec fn spec_string_table(s: Seq<u8>) -> Option<Seq<Seq<u8>>> {
    match spec_fields(s) {
        None => None,
        Some(fs) => string_table_run(Seq::empty(), fs, 0),
    }
}

/// Decodes a stringtable message.
pub fn parse_string_table(s: &Vec<u8>) -> (r: Result<Vec<Vec<u8>>, WireError>)
    ensures
        match r {
            Ok(m) => spec_string_table(s@) == Some(m.deep_view()),
            Err(_) => spec_string_table(s@) is None,
        },
{
    let fs = match parse_fields(s) {
        Ok(fs) => fs,
        Err(e) => {
            return Err(e);
        },
    };
    let ghost fsv = fs.deep_view();
    let mut table: Vec<Vec<u8>> = Vec::new();
    proof {
        assert(table.deep_view() =~~= Seq::<Seq<u8>>::empty());
    }
    let n = fs.len();
    let mut i: usize = 0;
    while i < n
        invariant
            n == fs@.len(),
            i <= n,
            fsv == fs.deep_view(),
            spec_fields(s@) == Some(fsv),
            spec_string_table(s@) == string_table_run(table.deep_view(), fsv, i as int),
        decreases n - i,
    {
        let f = &fs[i];
        proof {
            assert(fsv[i as int] == fs@[i as int]@);
        }
        if f.num == 1 {
            match &f.data {
                FieldData::Bytes(b) => {
                    let ghost old_table = table.deep_view();
                    let entry = crate::wire::clone_bytes(b);
                    table.push(entry);
                    proof {
                        assert(table.deep_view() =~~= old_table.push(b@));
                    }
                },
                _ => {
                    return Err(WireError::UnexpectedWireType);
                },
            }
        }
        i = i + 1;
    }
    Ok(table)
}

/// One step of decoding a group of elements. Fields: nodes, the dense node
/// run, ways and relations.
pub open spec fn group_step(
    st: (Seq<SpecNode>, Option<SpecDense>, Seq<SpecWay>, Seq<SpecRelation>),
    f: SpecField,
) -> Option<(Seq<SpecNode>, Option<SpecDense>, Seq<SpecWay>, Seq<SpecRelation>)> {
    if f.num == 1 {
        match f.data {
            SpecFieldData::Bytes(b) => match spec_node(b) {
                Some(m) => Some((st.0.push(m), st.1, st.2, st.3)),
                None => None,
            },
            _ => None,
        }
    } else if f.num == 2 {
        match f.data {
            SpecFieldData::Bytes(b) => match spec_dense(b) {
                Some(d) => Some((st.0, Some(d), st.2, st.3)),
                None => None,
            },
            _ => None,
        }
    } else if f.num == 3 {
        match f.data {
            SpecFieldData::Bytes(b) => match spec_way(b) {
                Some(m) => Some((st.0, st.1, st.2.push(m), st.3)),
                None => None,
            },
            _ => None,
        }
    } else if f.num == 4 {
        match f.data {
            SpecFieldData::Bytes(b) => match spec_relation(b) {
                Some(m) => Some((st.0, st.1, st.2, st.3.push(m))),
                None => None,
            },
            _ => None,
        }
    } else {
        Some(st)
    }
}

/// An empty dense node run, standing in when a group carries none.
pub open spec fn spec_dense_none() -> SpecDense {
    SpecDense {
        ids: Seq::empty(),
        lats: Seq::empty(),
        lons: Seq::empty(),
        keys_vals: Seq::empty(),
        denseinfo: None,
    }
}

pub open spec fn group_run(
    st: (Seq<SpecNode>, Option<SpecDense>, Seq<SpecWay>, Seq<SpecRelation>),
    fs: Seq<SpecField>,
    i: int,
) -> Option<SpecGroup>
    decreases fs.len() - i,
{
    if i < 0 || i > fs.len() {
        None
    } else if i == fs.len() {
        Some(
            SpecGroup {
                nodes: st.0,
                dense: match st.1 {
                    Some(d) => d,
                    None => spec_dense_none(),
                },
                ways: st.2,
                relations: st.3,
            },
        )
    } else {
        match group_step(st, fs[i]) {
            None => None,
            Some(st2) => group_run(st2, fs, i + 1),
        }
    }
}

/// The group a byte run decodes to.
pub open spec fn spec_group(s: Seq<u8>) -> Option<SpecGroup> {
    match spec_fields(s) {
        None => None,
        Some(fs) => group_run((Seq::empty(), None, Seq::empty(), Seq::empty()), fs, 0),
    }
}

/// Decodes a group message.
pub fn parse_group(s: &Vec<u8>) -> (r: Result<PrimitiveGroupData, WireError>)
    ensures
        match r {
            Ok(m) => spec_group(s@) == Some(m@),
            Err(_) => spec_group(s@) is None,
        },
{
    let fs = match parse_fields(s) {
        Ok(fs) => fs,
        Err(e) => {
            return Err(e);
        },
    };
    let ghost fsv = fs.deep_view();
    let mut nodes: Vec<NodeData> = Vec::new();
    let mut dense: Option<DenseData> = None;
    let mut ways: Vec<WayData> = Vec::new();
    let mut relations: Vec<RelationData> = Vec::new();
    proof {
        assert(nodes.deep_view() =~~= Seq::<SpecNode>::empty());
        assert(ways.deep_view() =~~= Seq::<SpecWay>::empty());
        assert(relations.deep_view() =~~= Seq::<SpecRelation>::empty());
    }
    let n = fs.len();
    let mut i: usize = 0;
    while i < n
        invariant
            n == fs@.len(),
            i <= n,
            fsv == fs.deep_view(),
            spec_fields(s@) == Some(fsv),
            spec_group(s@) == group_run(
                (
                    nodes.deep_view(),
                    match dense {
                        Some(ref d) => Some(d@),
                        None => None,
                    },
                    ways.deep_view(),
                    relations.deep_view(),
                ),
                fsv,
                i as int,
            ),
        decreases n - i,
    {
        let f = &fs[i];
        proof {
            assert(fsv[i as int] == fs@[i as int]@);
        }
        if f.num == 1 {
            match &f.data {
                FieldData::Bytes(b) => match parse_node(b) {
                    Ok(m) => {
                        let ghost old_nodes = nodes.deep_view();
                        let ghost mv = m@;
                        nodes.push(m);
                        proof {
                            assert(nodes.deep_view() =~= old_nodes.push(mv));
                        }
                    },
                    Err(e) => {
                        return Err(e);
                    },
                },
                _ => {
                    return Err(WireError::UnexpectedWireType);
                },
            }
        } else if f.num == 2 {
            match &f.data {
                FieldData::Bytes(b) => match parse_dense(b) {
                    Ok(d) => {
                        dense = Some(d);
                    },
                    Err(e) => {
                        return Err(e);
                    },
                },
                _ => {
                    return Err(WireError::UnexpectedWireType);
                },
            }
        } else if f.num == 3 {
            match &f.data {
                FieldData::Bytes(b) => match parse_way(b) {
                    Ok(m) => {
                        let ghost old_ways = ways.deep_view();
                        let ghost mv = m@;
                        ways.push(m);
                        proof {
                            assert(ways.deep_view() =~= old_ways.push(mv));
                        }
                    },
                    Err(e) => {
                        return Err(e);
                    },
                },
                _ => {
                    return Err(WireError::UnexpectedWireType);
                },
            }
        } else if f.num == 4 {
            match &f.data {
                FieldData::Bytes(b) => match parse_relation(b) {
                    Ok(m) => {
                        let ghost old_rels = relations.deep_view();
                        let ghost mv = m@;
                        relations.push(m);
                        proof {
                            assert(relations.deep_view() =~= old_rels.push(mv));
                        }
                    },
                    Err(e) => {
                        return Err(e);
                    },
                },
                _ => {
                    return Err(WireError::UnexpectedWireType);
                },
            }
        }
        i = i + 1;
    }
    let dense_out = match dense {
        Some(d) => d,
        None => DenseData {
            ids: Vec::new(),
            lats: Vec::new(),
            lons: Vec::new(),
            keys_vals: Vec::new(),
            denseinfo: None,
        },
    };
    proof {
        if dense is None {
            assert(dense_out@ =~~= spec_dense_none());
        }
    }
    Ok(PrimitiveGroupData { nodes, dense: dense_out, ways, relations })
}


/// One step of decoding a primitive block. Fields: the stringtable
/// (required), the groups, and the coordinate and date scaling parameters.
pub open spec fn block_step(
    st: (Option<Seq<Seq<u8>>>, Seq<SpecGroup>, Option<i32>, Option<i32>, Option<i64>, Option<i64>),
    f: SpecField,
) -> Option<
    (Option<Seq<Seq<u8>>>, Seq<SpecGroup>, Option<i32>, Option<i32>, Option<i64>, Option<i64>),
> {
    if f.num == 1 {
        match f.data {
            SpecFieldData::Bytes(b) => match spec_string_table(b) {
                Some(t) => Some((Some(t), st.1, st.2, st.3, st.4, st.5)),
                None => None,
            },
            _ => None,
        }
    } else if f.num == 2 {
        match f.data {
            SpecFieldData::Bytes(b) => match spec_group(b) {
                Some(g) => Some((st.0, st.1.push(g), st.2, st.3, st.4, st.5)),
                None => None,
            },
            _ => None,
        }
    } else if f.num == 17 {
        match f.data {
            SpecFieldData::Varint(v) => Some(
                (st.0, st.1, Some(spec_int32(v)), st.3, st.4, st.5),
            ),
            _ => None,
        }
    } else if f.num == 18 {
        match f.data {
            SpecFieldData::Varint(v) => Some(
                (st.0, st.1, st.2, Some(spec_int32(v)), st.4, st.5),
            ),
            _ => None,
        }
    } else if f.num == 19 {
        match f.data {
            SpecFieldData::Varint(v) => Some(
                (st.0, st.1, st.2, st.3, Some(spec_int64(v)), st.5),
            ),
            _ => None,
        }
    } else if f.num == 20 {
        match f.data {
            SpecFieldData::Varint(v) => Some(
                (st.0, st.1, st.2, st.3, st.4, Some(spec_int64(v))),
            ),
            _ => None,
        }
    } else {
        Some(st)
    }
}

pub open spec fn block_run(
    st: (Option<Seq<Seq<u8>>>, Seq<SpecGroup>, Option<i32>, Option<i32>, Option<i64>, Option<i64>),
    fs: Seq<SpecField>,
    i: int,
) -> Option<SpecPrimitiveBlock>
    decreases fs.len() - i,
{
    if i < 0 || i > fs.len() {
        None
    } else if i == fs.len() {
        match st.0 {
            Some(table) => Some(
                SpecPrimitiveBlock {
                    stringtable: table,
                    groups: st.1,
                    granularity: match st.2 {
                        Some(g) => g,
                        None => 100,
                    },
                    lat_offset: match st.4 {
                        Some(o) => o,
                        None => 0,
                    },
                    lon_offset: match st.5 {
                        Some(o) => o,
                        None => 0,
                    },
                    date_granularity: match st.3 {
                        Some(g) => g,
                        None => 1000,
                    },
                },
            ),
            None => None,
        }
    } else {
        match block_step(st, fs[i]) {
            None => None,
            Some(st2) => block_run(st2, fs, i + 1),
        }
    }
}

/// The primitive block a byte run decodes to.
pub open spec fn spec_primitive_block(s: Seq<u8>) -> Option<SpecPrimitiveBlock> {
    match spec_fields(s) {
        None => None,
        Some(fs) => block_run((None, Seq::empty(), None, None, None, None), fs, 0),
    }
}

/// Decodes a primitive block message.
pub fn parse_primitive_block(s: &Vec<u8>) -> (r: Result<PrimitiveBlock, WireError>)
    ensures
        match r {
            Ok(m) => spec_primitive_block(s@) == Some(m@),
            Err(_) => spec_primitive_block(s@) is None,
        },
{
    let fs = match parse_fields(s) {
        Ok(fs) => fs,
        Err(e) => {
            return Err(e);
        },
    };
    let ghost fsv = fs.deep_view();
    let mut stringtable: Option<Vec<Vec<u8>>> = None;
    let mut groups_data: Vec<PrimitiveGroupData> = Vec::new();
    let mut granularity: Option<i32> = None;
    let mut date_granularity: Option<i32> = None;
    let mut lat_offset: Option<i64> = None;
    let mut lon_offset: Option<i64> = None;
    proof {
        assert(groups_data.deep_view() =~~= Seq::<SpecGroup>::empty());
    }
    let n = fs.len();
    let mut i: usize = 0;
    while i < n
        invariant
            n == fs@.len(),
            i <= n,
            fsv == fs.deep_view(),
            spec_fields(s@) == Some(fsv),
            spec_primitive_block(s@) == block_run(
                (
                    match stringtable {
                        Some(ref t) => Some(t.deep_view()),
                        None => None,
                    },
                    groups_data.deep_view(),
                    granularity,
                    date_granularity,
                    lat_offset,
                    lon_offset,
                ),
                fsv,
                i as int,
            ),
        decreases n - i,
    {
        let f = &fs[i];
        proof {
            assert(fsv[i as int] == fs@[i as int]@);
        }
        if f.num == 1 {
            match &f.data {
                FieldData::Bytes(b) => match parse_string_table(b) {
                    Ok(t) => {
                        stringtable = Some(t);
                    },
                    Err(e) => {
                        return Err(e);
                    },
                },
                _ => {
                    return Err(WireError::UnexpectedWireType);
                },
            }
        } else if f.num == 2 {
            match &f.data {
                FieldData::Bytes(b) => match parse_group(b) {
                    Ok(g) => {
                        let ghost old_groups = groups_data.deep_view();
                        let ghost gv = g@;
                        groups_data.push(g);
                        proof {
                            assert(groups_data.deep_view() =~= old_groups.push(gv));
                        }
                    },
                    Err(e) => {
                        return Err(e);
                    },
                },
                _ => {
                    return Err(WireError::UnexpectedWireType);
                },
            }
        } else if f.num == 17 {
            match &f.data {
                FieldData::Varint(v) => {
                    granularity = Some(decode_int32(*v));
                },
                _ => {
                    return Err(WireError::UnexpectedWireType);
                },
            }
        } else if f.num == 18 {
            match &f.data {
                FieldData::Varint(v) => {
                    date_granularity = Some(decode_int32(*v));
                },
                _ => {
                    return Err(WireError::UnexpectedWireType);
                },
            }
        } else if f.num == 19 {
            match &f.data {
                FieldData::Varint(v) => {
                    lat_offset = Some(decode_int64(*v));
                },
                _ => {
                    return Err(WireError::UnexpectedWireType);
                },
            }
        } else if f.num == 20 {
            match &f.data {
                FieldData::Varint(v) => {
                    lon_offset = Some(decode_int64(*v));
                },
                _ => {
                    return Err(WireError::UnexpectedWireType);
                },
            }
        }
        i = i + 1;
    }
    match stringtable {
        Some(table) => Ok(
            PrimitiveBlock {
                stringtable: table,
                groups_data,
                granularity: match granularity {
                    Some(g) => g,
                    None => 100,
                },
                lat_offset: match lat_offset {
                    Some(o) => o,
                    None => 0,
                },
                lon_offset: match lon_offset {
                    Some(o) => o,
                    None => 0,
                },
                date_granularity: match date_granularity {
                    Some(g) => g,
                    None => 1000,
                },
            },
        ),
        None => Err(WireError::MissingRequiredField),
    }
}

/// One step of decoding a header block: the two feature-string columns; all
/// other metadata fields are skipped.
pub open spec fn header_block_step(
    st: (Seq<Seq<char>>, Seq<Seq<char>>),
    f: SpecField,
) -> Option<(Seq<Seq<char>>, Seq<Seq<char>>)> {
    if f.num == 4 {
        match f.data {
            SpecFieldData::Bytes(b) => if vstd::utf8::valid_utf8(b) {
                Some((st.0.push(vstd::utf8::decode_utf8(b)), st.1))
            } else {
                None
            },
            _ => None,
        }
    } else if f.num == 5 {
        match f.data {
            SpecFieldData::Bytes(b) => if vstd::utf8::valid_utf8(b) {
                Some((st.0, st.1.push(vstd::utf8::decode_utf8(b))))
            } else {
                None
            },
            _ => None,
        }
    } else {
        Some(st)
    }
}

pub open spec fn header_block_run(
    st: (Seq<Seq<char>>, Seq<Seq<char>>),
    fs: Seq<SpecField>,
    i: int,
) -> Option<SpecHeaderBlock>
    decreases fs.len() - i,
{
    if i < 0 || i > fs.len() {
        None
    } else if i == fs.len() {
        Some(SpecHeaderBlock { required_features: st.0, optional_features: st.1 })
    } else {
        match header_block_step(st, fs[i]) {
            None => None,
            Some(st2) => header_block_run(st2, fs, i + 1),
        }
    }
}

/// The header block a byte run decodes to.
pub open spec fn spec_header_block(s: Seq<u8>) -> Option<SpecHeaderBlock> {
    match spec_fields(s) {
        None => None,
        Some(fs) => header_block_run((Seq::empty(), Seq::empty()), fs, 0),
    }
}

/// Decodes a header block message.
pub fn parse_header_block(s: &Vec<u8>) -> (r: Result<HeaderBlock, WireError>)
    ensures
        match r {
            Ok(m) => spec_header_block(s@) == Some(m@),
            Err(_) => spec_header_block(s@) is None,
        },
{
    let fs = match parse_fields(s) {
        Ok(fs) => fs,
        Err(e) => {
            return Err(e);
        },
    };
    let ghost fsv = fs.deep_view();
    let mut required_features: Vec<String> = Vec::new();
    let mut optional_features: Vec<String> = Vec::new();
    proof {
        assert(required_features.deep_view() =~~= Seq::<Seq<char>>::empty());
        assert(optional_features.deep_view() =~~= Seq::<Seq<char>>::empty());
    }
    let n = fs.len();
    let mut i: usize = 0;
    while i < n
        invariant
            n == fs@.len(),
            i <= n,
            fsv == fs.deep_view(),
            spec_fields(s@) == Some(fsv),
            spec_header_block(s@) == header_block_run(
                (required_features.deep_view(), optional_features.deep_view()),
                fsv,
                i as int,
            ),
        decreases n - i,
    {
        let f = &fs[i];
        proof {
            assert(fsv[i as int] == fs@[i as int]@);
        }
        if f.num == 4 {
            match &f.data {
                FieldData::Bytes(b) => match utf8_to_str(b) {
                    Some(fstr) => {
                        let ghost old_req = required_features.deep_view();
                        required_features.push(fstr.to_owned());
                        proof {
                            assert(required_features.deep_view() =~~= old_req.push(
                                vstd::utf8::decode_utf8(b@),
                            ));
                        }
                    },
                    None => {
                        return Err(WireError::InvalidUtf8);
                    },
                },
                _ => {
                    return Err(WireError::UnexpectedWireType);
                },
            }
        } else if f.num == 5 {
            match &f.data {
                FieldData::Bytes(b) => match utf8_to_str(b) {
                    Some(fstr) => {
                        let ghost old_opt = optional_features.deep_view();
                        optional_features.push(fstr.to_owned());
                        proof {
                            assert(optional_features.deep_view() =~~= old_opt.push(
                                vstd::utf8::decode_utf8(b@),
                            ));
                        }
                    },
                    None => {
                        return Err(WireError::InvalidUtf8);
                    },
                },
                _ => {
                    return Err(WireError::UnexpectedWireType);
                },
            }
        }
        i = i + 1;
    }
    Ok(HeaderBlock { required_features, optional_features })
}

/// One step of decoding a blob header message. Fields: the type tag string
/// (required) and the declared payload length (required); the index data
/// field is skipped.
pub open spec fn blob_header_step(
    st: (Option<Seq<char>>, Option<i32>),
    f: SpecField,
) -> Option<(Option<Seq<char>>, Option<i32>)> {
    if f.num == 1 {
        match f.data {
            SpecFieldData::Bytes(b) => if vstd::utf8::valid_utf8(b) {
                Some((Some(vstd::utf8::decode_utf8(b)), st.1))
            } else {
                None
            },
            _ => None,
        }
    } else if f.num == 3 {
        match f.data {
            SpecFieldData::Varint(v) => Some((st.0, Some(spec_int32(v)))),
            _ => None,
        }
    } else {
        Some(st)
    }
}

pub open spec fn blob_header_run(
    st: (Option<Seq<char>>, Option<i32>),
    fs: Seq<SpecField>,
    i: int,
) -> Option<SpecBlobHeader>
    decreases fs.len() - i,
{
    if i < 0 || i > fs.len() {
        None
    } else if i == fs.len() {
        match (st.0, st.1) {
            (Some(t), Some(d)) => Some(SpecBlobHeader { blob_type: t, datasize: d }),
            _ => None,
        }
    } else {
        match blob_header_step(st, fs[i]) {
            None => None,
            Some(st2) => blob_header_run(st2, fs, i + 1),
        }
    }
}

/// The blob header message a byte run decodes to.
pub open spec fn spec_blob_header(s: Seq<u8>) -> Option<SpecBlobHeader> {
    match spec_fields(s) {
        None => None,
        Some(fs) => blob_header_run((None, None), fs, 0),
    }
}

/// Decodes a blob header message.
pub fn parse_blob_header(s: &Vec<u8>) -> (r: Result<BlobHeader, WireError>)
    ensures
        match r {
            Ok(m) => spec_blob_header(s@) == Some(m@),
            Err(_) => spec_blob_header(s@) is None,
        },
{
    let fs = match parse_fields(s) {
        Ok(fs) => fs,
        Err(e) => {
            return Err(e);
        },
    };
    let ghost fsv = fs.deep_view();
    let mut blob_type: Option<String> = None;
    let mut datasize: Option<i32> = None;
    let n = fs.len();
    let mut i: usize = 0;
    while i < n
        invariant
            n == fs@.len(),
            i <= n,
            fsv == fs.deep_view(),
            spec_fields(s@) == Some(fsv),
            spec_blob_header(s@) == blob_header_run(
                (
                    match blob_type {
                        Some(ref t) => Some(t@),
                        None => None,
                    },
                    datasize,
                ),
                fsv,
                i as int,
            ),
        decreases n - i,
    {
        let f = &fs[i];
        proof {
            assert(fsv[i as int] == fs@[i as int]@);
        }
        if f.num == 1 {
            match &f.data {
                FieldData::Bytes(b) => match utf8_to_str(b) {
                    Some(t) => {
                        blob_type = Some(t.to_owned());
                    },
                    None => {
                        return Err(WireError::InvalidUtf8);
                    },
                },
                _ => {
                    return Err(WireError::UnexpectedWireType);
                },
            }
        } else if f.num == 3 {
            match &f.data {
                FieldData::Varint(v) => {
                    datasize = Some(decode_int32(*v));
                },
                _ => {
                    return Err(WireError::UnexpectedWireType);
                },
            }
        }
        i = i + 1;
    }
    match (blob_type, datasize) {
        (Some(t), Some(d)) => Ok(BlobHeader { blob_type: t, datasize: d }),
        _ => Err(WireError::MissingRequiredField),
    }
}

/// One step of decoding a blob payload message: the raw bytes field and the
/// zlib data field; the advisory raw size field and the other compression
/// fields are skipped.
pub open spec fn blob_data_step(
    st: (Option<Seq<u8>>, Option<Seq<u8>>),
    f: SpecField,
) -> Option<(Option<Seq<u8>>, Option<Seq<u8>>)> {
    if f.num == 1 {
        match f.data {
            SpecFieldData::Bytes(b) => Some((Some(b), st.1)),
            _ => None,
        }
    } else if f.num == 3 {
        match f.data {
            SpecFieldData::Bytes(b) => Some((st.0, Some(b))),
            _ => None,
        }
    } else {
        Some(st)
    }
}

pub open spec fn blob_data_run(
    st: (Option<Seq<u8>>, Option<Seq<u8>>),
    fs: Seq<SpecField>,
    i: int,
) -> Option<SpecBlobData>
    decreases fs.len() - i,
{
    if i < 0 || i > fs.len() {
        None
    } else if i == fs.len() {
        Some(SpecBlobData { raw: st.0, zlib_data: st.1 })
    } else {
        match blob_data_step(st, fs[i]) {
            None => None,
            Some(st2) => blob_data_run(st2, fs, i + 1),
        }
    }
}

/// The blob payload message a byte run decodes to.
pub open spec fn spec_blob_data(s: Seq<u8>) -> Option<SpecBlobData> {
    match spec_fields(s) {
        None => None,
        Some(fs) => blob_data_run((None, None), fs, 0),
    }
}

/// Decodes a blob payload message.
pub fn parse_blob_data(s: &Vec<u8>) -> (r: Result<BlobData, WireError>)
    ensures
        match r {
            Ok(m) => spec_blob_data(s@) == Some(m@),
            Err(_) => spec_blob_data(s@) is None,
        },
{
    let fs = match parse_fields(s) {
        Ok(fs) => fs,
        Err(e) => {
            return Err(e);
        },
    };
    let ghost fsv = fs.deep_view();
    let mut raw: Option<Vec<u8>> = None;
    let mut zlib_data: Option<Vec<u8>> = None;
    let n = fs.len();
    let mut i: usize = 0;
    while i < n
        invariant
            n == fs@.len(),
            i <= n,
            fsv == fs.deep_view(),
            spec_fields(s@) == Some(fsv),
            spec_blob_data(s@) == blob_data_run(
                (
                    match raw {
                        Some(ref b) => Some(b@),
                        None => None,
                    },
                    match zlib_data {
                        Some(ref b) => Some(b@),
                        None => None,
                    },
                ),
                fsv,
                i as int,
            ),
        decreases n - i,
    {
        let f = &fs[i];
        proof {
            assert(fsv[i as int] == fs@[i as int]@);
        }
        if f.num == 1 {
            match &f.data {
                FieldData::Bytes(b) => {
                    raw = Some(crate::wire::clone_bytes(b));
                },
                _ => {
                    return Err(WireError::UnexpectedWireType);
                },
            }
        } else if f.num == 3 {
            match &f.data {
                FieldData::Bytes(b) => {
                    zlib_data = Some(crate::wire::clone_bytes(b));
                },
                _ => {
                    return Err(WireError::UnexpectedWireType);
                },
            }
        }
        i = i + 1;
    }
    Ok(BlobData { raw, zlib_data })
}

} // verus!
