use osmpbf::{
    str_from_stringtable, wire, Blob, BlobDecode, BlobError, BlobReader, BlobType, ByteOffset,
    Element, ErrorKind, RelMemberType, SeekFrom,
};

// Wire-format building helpers: varints, fields, and the block and framing
// messages, written the way an encoder would lay them out.

fn varint(mut v: u64) -> Vec<u8> {
    let mut out = Vec::new();
    loop {
        let b = (v & 0x7f) as u8;
        v >>= 7;
        if v == 0 {
            out.push(b);
            return out;
        }
        out.push(b | 0x80);
    }
}

fn zigzag64(v: i64) -> u64 {
    ((v << 1) ^ (v >> 63)) as u64
}

fn zigzag32(v: i32) -> u64 {
    (((v << 1) ^ (v >> 31)) as u32) as u64
}

fn field_varint(num: u64, v: u64) -> Vec<u8> {
    let mut out = varint(num << 3);
    out.extend_from_slice(&varint(v));
    out
}

fn field_bytes(num: u64, b: &[u8]) -> Vec<u8> {
    let mut out = varint((num << 3) | 2);
    out.extend_from_slice(&varint(b.len() as u64));
    out.extend_from_slice(b);
    out
}

fn packed(vals: &[u64]) -> Vec<u8> {
    let mut out = Vec::new();
    for v in vals {
        out.extend_from_slice(&varint(*v));
    }
    out
}

fn packed_sint64(vals: &[i64]) -> Vec<u8> {
    packed(&vals.iter().map(|v| zigzag64(*v)).collect::<Vec<u64>>())
}

fn string_table(entries: &[&[u8]]) -> Vec<u8> {
    let mut out = Vec::new();
    for e in entries {
        out.extend_from_slice(&field_bytes(1, e));
    }
    out
}

fn node_msg(id: i64, lat: i64, lon: i64, keys: &[u64], vals: &[u64], info: Option<&[u8]>) -> Vec<u8> {
    let mut out = field_varint(1, zigzag64(id));
    if !keys.is_empty() {
        out.extend_from_slice(&field_bytes(2, &packed(keys)));
    }
    if !vals.is_empty() {
        out.extend_from_slice(&field_bytes(3, &packed(vals)));
    }
    if let Some(i) = info {
        out.extend_from_slice(&field_bytes(4, i));
    }
    out.extend_from_slice(&field_varint(8, zigzag64(lat)));
    out.extend_from_slice(&field_varint(9, zigzag64(lon)));
    out
}

fn way_msg(id: i64, ref_deltas: &[i64], keys: &[u64], vals: &[u64]) -> Vec<u8> {
    let mut out = field_varint(1, id as u64);
    if !keys.is_empty() {
        out.extend_from_slice(&field_bytes(2, &packed(keys)));
    }
    if !vals.is_empty() {
        out.extend_from_slice(&field_bytes(3, &packed(vals)));
    }
    if !ref_deltas.is_empty() {
        out.extend_from_slice(&field_bytes(8, &packed_sint64(ref_deltas)));
    }
    out
}

fn relation_msg(id: i64, roles: &[i32], memid_deltas: &[i64], types: &[u64]) -> Vec<u8> {
    let mut out = field_varint(1, id as u64);
    if !roles.is_empty() {
        let roles_u: Vec<u64> = roles.iter().map(|r| *r as u64).collect();
        out.extend_from_slice(&field_bytes(8, &packed(&roles_u)));
    }
    if !memid_deltas.is_empty() {
        out.extend_from_slice(&field_bytes(9, &packed_sint64(memid_deltas)));
    }
    if !types.is_empty() {
        out.extend_from_slice(&field_bytes(10, &packed(types)));
    }
    out
}

fn dense_msg(
    id_deltas: &[i64],
    lat_deltas: &[i64],
    lon_deltas: &[i64],
    keys_vals: &[i32],
    denseinfo: Option<&[u8]>,
) -> Vec<u8> {
    let mut out = field_bytes(1, &packed_sint64(id_deltas));
    if let Some(di) = denseinfo {
        out.extend_from_slice(&field_bytes(5, di));
    }
    out.extend_from_slice(&field_bytes(8, &packed_sint64(lat_deltas)));
    out.extend_from_slice(&field_bytes(9, &packed_sint64(lon_deltas)));
    if !keys_vals.is_empty() {
        let kv: Vec<u64> = keys_vals.iter().map(|v| ((*v as u32) as u64)).collect();
        out.extend_from_slice(&field_bytes(10, &packed(&kv)));
    }
    out
}

fn group_nodes(nodes: &[Vec<u8>]) -> Vec<u8> {
    let mut out = Vec::new();
    for n in nodes {
        out.extend_from_slice(&field_bytes(1, n));
    }
    out
}

fn primitive_block(stringtable: &[&[u8]], groups: &[Vec<u8>], extra: &[u8]) -> Vec<u8> {
    let mut out = field_bytes(1, &string_table(stringtable));
    for g in groups {
        out.extend_from_slice(&field_bytes(2, g));
    }
    out.extend_from_slice(extra);
    out
}

fn blob_msg_raw(content: &[u8]) -> Vec<u8> {
    field_bytes(1, content)
}

fn blob_msg_zlib(content: &[u8]) -> Vec<u8> {
    let mut enc =
        flate2::write::ZlibEncoder::new(Vec::new(), flate2::Compression::default());
    std::io::Write::write_all(&mut enc, content).unwrap();
    let compressed = enc.finish().unwrap();
    field_bytes(3, &compressed)
}

fn frame(blob_type: &str, blob_msg: &[u8]) -> Vec<u8> {
    let mut header = field_bytes(1, blob_type.as_bytes());
    header.extend_from_slice(&field_varint(3, blob_msg.len() as u64));
    let mut out = (header.len() as u32).to_be_bytes().to_vec();
    out.extend_from_slice(&header);
    out.extend_from_slice(blob_msg);
    out
}

fn simple_data_blob(stringtable: &[&[u8]], groups: &[Vec<u8>]) -> Vec<u8> {
    frame("OSMData", &blob_msg_raw(&primitive_block(stringtable, groups, &[])))
}

#[test]
fn varint_decode_values() {
    let bytes = vec![0xacu8, 0x02];
    assert_eq!(wire::read_varint(&bytes, 0).unwrap(), (300, 2));
    assert_eq!(wire::decode_sint64(zigzag64(-50)), -50);
    assert_eq!(wire::decode_sint64(zigzag64(100)), 100);
    assert_eq!(wire::decode_sint32(zigzag32(-7)), -7);
    assert_eq!(wire::decode_int32((-3i32 as u32) as u64), -3);
}

#[test]
fn round_trip_offsets() {
    let mut data = simple_data_blob(&[b""], &[group_nodes(&[node_msg(1, 0, 0, &[], &[], None)])]);
    let first_len = data.len();
    data.extend_from_slice(&simple_data_blob(
        &[b""],
        &[group_nodes(&[node_msg(2, 0, 0, &[], &[], None)])],
    ));
    let mut reader = BlobReader::new_seekable(data).unwrap();
    let b1 = reader.next().unwrap().unwrap();
    let b2 = reader.next().unwrap().unwrap();
    assert_eq!(b1.offset(), Some(ByteOffset(0)));
    assert_eq!(b2.offset(), Some(ByteOffset(first_len as u64)));
    reader.seek(b1.offset().unwrap()).unwrap();
    let b1_again = reader.next().unwrap().unwrap();
    assert_eq!(b1_again.offset(), b1.offset());
    let id_of = |b: &Blob| -> i64 {
        let block = b.to_primitiveblock().unwrap();
        let mut it = block.elements();
        match it.next().unwrap() {
            Element::Node(n) => n.id(),
            _ => panic!("expected a node"),
        }
    };
    assert_eq!(id_of(&b1_again), id_of(&b1));
    assert_eq!(id_of(&b1), 1);
    let b2_again = reader.next().unwrap().unwrap();
    assert_eq!(b2_again.offset(), b2.offset());
    assert_eq!(id_of(&b2_again), 2);
}

#[test]
fn way_refs_running_sum() {
    let data = simple_data_blob(
        &[b""],
        &[field_bytes(3, &way_msg(7, &[100, -50, 5], &[], &[]))],
    );
    let mut reader = BlobReader::new(data);
    let blob = reader.next().unwrap().unwrap();
    let block = blob.to_primitiveblock().unwrap();
    let mut it = block.elements();
    match it.next().unwrap() {
        Element::Way(way) => {
            assert_eq!(way.id(), 7);
            let mut refs = way.refs();
            let mut got = Vec::new();
            while let Some(r) = refs.next() {
                got.push(r);
            }
            assert_eq!(got, vec![100, 50, 55]);
            assert_eq!(way.raw_refs(), &[100, -50, 5]);
        }
        _ => panic!("expected a way"),
    }
}

#[test]
fn relation_member_ids_running_sum() {
    let data = simple_data_blob(
        &[b"", b"role"],
        &[field_bytes(4, &relation_msg(9, &[1, 1, 1], &[10, 5, -3], &[0, 1, 2]))],
    );
    let mut reader = BlobReader::new(data);
    let block = reader.next().unwrap().unwrap().to_primitiveblock().unwrap();
    let mut it = block.elements();
    match it.next().unwrap() {
        Element::Relation(rel) => {
            let mut members = rel.members();
            let mut ids = Vec::new();
            let mut types = Vec::new();
            while let Some(m) = members.next() {
                ids.push(m.member_id);
                types.push(m.member_type.clone());
                assert_eq!(m.role().unwrap(), "role");
            }
            assert_eq!(ids, vec![10, 15, 12]);
            assert_eq!(
                types,
                vec![RelMemberType::Node, RelMemberType::Way, RelMemberType::Relation]
            );
        }
        _ => panic!("expected a relation"),
    }
}

#[test]
fn relation_member_truncation() {
    let data = simple_data_blob(
        &[b"", b"x"],
        &[field_bytes(4, &relation_msg(9, &[1, 1, 1], &[10, 5], &[0, 0, 0]))],
    );
    let mut reader = BlobReader::new(data);
    let block = reader.next().unwrap().unwrap().to_primitiveblock().unwrap();
    let mut it = block.elements();
    match it.next().unwrap() {
        Element::Relation(rel) => {
            let mut members = rel.members();
            let mut count = 0;
            let mut last_id = 0;
            while let Some(m) = members.next() {
                count += 1;
                last_id = m.member_id;
            }
            assert_eq!(count, 2);
            assert_eq!(last_id, 15);
        }
        _ => panic!("expected a relation"),
    }
}

#[test]
fn stringtable_index_out_of_bounds() {
    let data = simple_data_blob(&[b"only"], &[]);
    let mut reader = BlobReader::new(data);
    let block = reader.next().unwrap().unwrap().to_primitiveblock().unwrap();
    assert_eq!(str_from_stringtable(&block, 0).unwrap(), "only");
    match str_from_stringtable(&block, 5) {
        Err(e) => match e.kind() {
            ErrorKind::StringtableIndexOutOfBounds { index } => assert_eq!(*index, 5),
            _ => panic!("wrong error kind"),
        },
        Ok(_) => panic!("expected an error"),
    }
}

#[test]
fn stringtable_invalid_utf8() {
    let data = simple_data_blob(&[b"\xff\xfe"], &[]);
    let mut reader = BlobReader::new(data);
    let block = reader.next().unwrap().unwrap().to_primitiveblock().unwrap();
    match str_from_stringtable(&block, 0) {
        Err(e) => match e.kind() {
            ErrorKind::StringtableUtf8 { index } => assert_eq!(*index, 0),
            _ => panic!("wrong error kind"),
        },
        Ok(_) => panic!("expected an error"),
    }
}

#[test]
fn decompression_bound_rejected() {
    // A block message whose single length-delimited field claims far more
    // than the 32 MiB output cap: the inflated bytes are cut at the cap, so
    // the field is truncated and decoding fails instead of growing without
    // bound.
    let mut content = varint((1 << 3) | 2);
    let inner_len: usize = 40 * 1024 * 1024;
    content.extend_from_slice(&varint(inner_len as u64));
    content.extend_from_slice(&vec![0u8; inner_len]);
    let data = frame("OSMData", &blob_msg_zlib(&content));
    let mut reader = BlobReader::new(data);
    let blob = reader.next().unwrap().unwrap();
    match blob.decode() {
        Err(e) => match e.kind() {
            ErrorKind::Protobuf { .. } => {}
            _ => panic!("wrong error kind"),
        },
        Ok(_) => panic!("expected a decode failure"),
    }
}

#[test]
fn raw_message_too_big() {
    let content = vec![0u8; 33 * 1024 * 1024];
    let data = frame("OSMData", &blob_msg_raw(&content));
    let mut reader = BlobReader::new(data);
    let blob = reader.next().unwrap().unwrap();
    match blob.decode() {
        Err(e) => match e.kind() {
            ErrorKind::Blob(BlobError::MessageTooBig { size }) => {
                assert_eq!(*size, (33 * 1024 * 1024) as u64)
            }
            _ => panic!("wrong error kind"),
        },
        Ok(_) => panic!("expected a decode failure"),
    }
}

#[test]
fn empty_blob_body() {
    let data = frame("OSMData", &field_varint(2, 12));
    let mut reader = BlobReader::new(data);
    let blob = reader.next().unwrap().unwrap();
    match blob.decode() {
        Err(e) => match e.kind() {
            ErrorKind::Blob(BlobError::Empty) => {}
            _ => panic!("wrong error kind"),
        },
        Ok(_) => panic!("expected a decode failure"),
    }
}

#[test]
fn header_size_bound_halts_stream() {
    let mut data = (65536u32).to_be_bytes().to_vec();
    data.extend_from_slice(&[0u8; 64]);
    let mut reader = BlobReader::new(data);
    match reader.next() {
        Some(Err(e)) => match e.kind() {
            ErrorKind::Blob(BlobError::HeaderTooBig { size }) => assert_eq!(*size, 65536),
            _ => panic!("wrong error kind"),
        },
        _ => panic!("expected an error"),
    }
    assert!(reader.next().is_none());
    assert!(reader.next().is_none());
}

#[test]
fn truncated_length_field_halts_stream() {
    let data = vec![0u8, 1];
    let mut reader = BlobReader::new(data);
    match reader.next() {
        Some(Err(e)) => match e.kind() {
            ErrorKind::Blob(BlobError::InvalidHeaderSize) => {}
            _ => panic!("wrong error kind"),
        },
        _ => panic!("expected an error"),
    }
    assert!(reader.next().is_none());
}

#[test]
fn clean_end_of_stream() {
    let mut reader = BlobReader::new(Vec::new());
    assert!(reader.next().is_none());
}

#[test]
fn visibility_defaults_to_true() {
    // The node's metadata carries a version but no visibility flag.
    let info = field_varint(1, 3);
    let data = simple_data_blob(
        &[b""],
        &[group_nodes(&[node_msg(1, 0, 0, &[], &[], Some(&info))])],
    );
    let mut reader = BlobReader::new(data);
    let block = reader.next().unwrap().unwrap().to_primitiveblock().unwrap();
    let mut it = block.elements();
    match it.next().unwrap() {
        Element::Node(node) => {
            assert_eq!(node.info().version(), Some(3));
            assert!(node.info().visible());
        }
        _ => panic!("expected a node"),
    }
}

#[test]
fn visibility_flag_false_is_reported() {
    let mut info = field_varint(1, 3);
    info.extend_from_slice(&field_varint(6, 0));
    let data = simple_data_blob(
        &[b""],
        &[group_nodes(&[node_msg(1, 0, 0, &[], &[], Some(&info))])],
    );
    let mut reader = BlobReader::new(data);
    let block = reader.next().unwrap().unwrap().to_primitiveblock().unwrap();
    let mut it = block.elements();
    match it.next().unwrap() {
        Element::Node(node) => assert!(!node.info().visible()),
        _ => panic!("expected a node"),
    }
}

#[test]
fn unknown_blob_type_is_not_an_error() {
    let mut data = frame("FooBar", &blob_msg_raw(b"anything"));
    data.extend_from_slice(&simple_data_blob(
        &[b""],
        &[group_nodes(&[node_msg(4, 0, 0, &[], &[], None)])],
    ));
    let mut reader = BlobReader::new(data);
    let blob = reader.next().unwrap().unwrap();
    match blob.get_type() {
        BlobType::Unknown(t) => assert_eq!(t, "FooBar"),
        _ => panic!("expected an unknown type"),
    }
    match blob.decode().unwrap() {
        BlobDecode::Unknown(t) => assert_eq!(t, "FooBar"),
        _ => panic!("expected an unknown decode"),
    }
    // The stream is not halted: the next blob still decodes.
    let blob2 = reader.next().unwrap().unwrap();
    assert!(matches!(blob2.decode().unwrap(), BlobDecode::OsmData(_)));
    assert!(reader.next().is_none());
}

#[test]
fn header_block_features() {
    let mut hb = field_bytes(4, b"OsmSchema-V0.6");
    hb.extend_from_slice(&field_bytes(5, b"Sort.Type_then_ID"));
    let data = frame("OSMHeader", &blob_msg_raw(&hb));
    let mut reader = BlobReader::new(data);
    let blob = reader.next().unwrap().unwrap();
    match blob.decode().unwrap() {
        BlobDecode::OsmHeader(h) => {
            assert_eq!(h.required_features(), &["OsmSchema-V0.6".to_string()]);
            assert_eq!(h.optional_features(), &["Sort.Type_then_ID".to_string()]);
        }
        _ => panic!("expected a header block"),
    }
}

#[test]
fn tags_resolve_through_stringtable() {
    let data = simple_data_blob(
        &[b"", b"highway", b"primary"],
        &[group_nodes(&[node_msg(1, 0, 0, &[1], &[2], None)])],
    );
    let mut reader = BlobReader::new(data);
    let block = reader.next().unwrap().unwrap().to_primitiveblock().unwrap();
    let mut it = block.elements();
    match it.next().unwrap() {
        Element::Node(node) => {
            let mut tags = node.tags();
            assert_eq!(tags.next(), Some(("highway", "primary")));
            assert_eq!(tags.next(), None);
            let mut raw = node.raw_tags();
            assert_eq!(raw.next(), Some((1, 2)));
            assert_eq!(raw.next(), None);
        }
        _ => panic!("expected a node"),
    }
}

#[test]
fn tag_iteration_stops_at_unresolvable_pair() {
    // Two tag pairs; the first value index is out of range, so the resolved
    // iterator ends at the first pair while the raw iterator yields both.
    let data = simple_data_blob(
        &[b"", b"k1", b"k2", b"v2"],
        &[group_nodes(&[node_msg(1, 0, 0, &[1, 2], &[9, 3], None)])],
    );
    let mut reader = BlobReader::new(data);
    let block = reader.next().unwrap().unwrap().to_primitiveblock().unwrap();
    let mut it = block.elements();
    match it.next().unwrap() {
        Element::Node(node) => {
            let mut tags = node.tags();
            assert_eq!(tags.next(), None);
            let mut raw = node.raw_tags();
            assert_eq!(raw.next(), Some((1, 9)));
            assert_eq!(raw.next(), Some((2, 3)));
            assert_eq!(raw.next(), None);
        }
        _ => panic!("expected a node"),
    }
}

#[test]
fn node_coordinates_scaled() {
    // granularity 200, lat_offset 1000: stored lat 7 is 1000 + 200 * 7.
    let mut extra = field_varint(17, 200);
    extra.extend_from_slice(&field_varint(19, 1000));
    let content = primitive_block(
        &[b""],
        &[group_nodes(&[node_msg(1, 7, -7, &[], &[], None)])],
        &extra,
    );
    let data = frame("OSMData", &blob_msg_raw(&content));
    let mut reader = BlobReader::new(data);
    let block = reader.next().unwrap().unwrap().to_primitiveblock().unwrap();
    let mut it = block.elements();
    match it.next().unwrap() {
        Element::Node(node) => {
            assert_eq!(node.lat_in_nano_degrees(), 1000 + 200 * 7);
            assert_eq!(node.lon_in_nano_degrees(), 200 * -7);
        }
        _ => panic!("expected a node"),
    }
}

#[test]
fn info_timestamp_scaled_by_date_granularity() {
    // date_granularity 2000, stored timestamp 5: 10000 milliseconds.
    let mut info = field_varint(2, 5);
    info.extend_from_slice(&field_varint(3, 77));
    info.extend_from_slice(&field_varint(4, 42));
    info.extend_from_slice(&field_varint(5, 1));
    let extra = field_varint(18, 2000);
    let content = primitive_block(
        &[b"", b"alice"],
        &[group_nodes(&[node_msg(1, 0, 0, &[], &[], Some(&info))])],
        &extra,
    );
    let data = frame("OSMData", &blob_msg_raw(&content));
    let mut reader = BlobReader::new(data);
    let block = reader.next().unwrap().unwrap().to_primitiveblock().unwrap();
    let mut it = block.elements();
    match it.next().unwrap() {
        Element::Node(node) => {
            let info = node.info();
            assert_eq!(info.milli_timestamp(), Some(10000));
            assert_eq!(info.changeset(), Some(77));
            assert_eq!(info.uid(), Some(42));
            assert_eq!(info.user().unwrap().unwrap(), "alice");
            assert_eq!(info.version(), None);
        }
        _ => panic!("expected a node"),
    }
}

#[test]
fn dense_nodes_delta_decoded() {
    // Three dense nodes with delta-coded ids and coordinates, and a tag
    // list for the first and third node.
    let dense = dense_msg(
        &[10, 1, 1],
        &[100, -10, 5],
        &[-30, 10, 10],
        &[1, 2, 0, 0, 3, 4, 0],
        None,
    );
    let data = simple_data_blob(
        &[b"", b"k", b"v", b"k2", b"v2"],
        &[field_bytes(2, &dense)],
    );
    let mut reader = BlobReader::new(data);
    let block = reader.next().unwrap().unwrap().to_primitiveblock().unwrap();
    let mut ids = Vec::new();
    let mut lats = Vec::new();
    let mut lons = Vec::new();
    let mut tag_counts = Vec::new();
    let mut it = block.elements();
    while let Some(e) = it.next() {
        match e {
            Element::DenseNode(dn) => {
                ids.push(dn.id());
                lats.push(dn.lat_in_nano_degrees());
                lons.push(dn.lon_in_nano_degrees());
                let mut tags = dn.tags();
                let mut c = 0;
                while let Some((k, v)) = tags.next() {
                    assert!(!k.is_empty() && !v.is_empty());
                    c += 1;
                }
                tag_counts.push(c);
                assert!(dn.visible());
            }
            _ => panic!("expected dense nodes only"),
        }
    }
    assert_eq!(ids, vec![10, 11, 12]);
    assert_eq!(lats, vec![10000, 9000, 9500]);
    assert_eq!(lons, vec![-3000, -2000, -1000]);
    assert_eq!(tag_counts, vec![1, 0, 1]);
}

#[test]
fn dense_info_delta_decoded() {
    let mut di = field_bytes(1, &packed(&[1, 2])); // versions
    di.extend_from_slice(&field_bytes(2, &packed_sint64(&[100, 20]))); // timestamps
    di.extend_from_slice(&field_bytes(3, &packed_sint64(&[7, 1]))); // changesets
    di.extend_from_slice(&field_bytes(4, &packed(&[zigzag32(5), zigzag32(-1)]))); // uids
    di.extend_from_slice(&field_bytes(5, &packed(&[zigzag32(1), zigzag32(0)]))); // user_sids
    di.extend_from_slice(&field_bytes(6, &packed(&[0]))); // visibles, shorter than ids
    let dense = dense_msg(&[1, 1], &[0, 0], &[0, 0], &[], Some(&di));
    let data = simple_data_blob(&[b"", b"bob"], &[field_bytes(2, &dense)]);
    let mut reader = BlobReader::new(data);
    let block = reader.next().unwrap().unwrap().to_primitiveblock().unwrap();
    let mut it = block.elements();
    let first = match it.next().unwrap() {
        Element::DenseNode(dn) => dn,
        _ => panic!("expected a dense node"),
    };
    assert_eq!(first.version(), Some(1));
    assert_eq!(first.milli_timestamp(), Some(100_000));
    assert_eq!(first.changeset(), Some(7));
    assert_eq!(first.uid(), Some(5));
    assert_eq!(first.user().unwrap().unwrap(), "bob");
    assert!(!first.visible());
    let second = match it.next().unwrap() {
        Element::DenseNode(dn) => dn,
        _ => panic!("expected a dense node"),
    };
    assert_eq!(second.version(), Some(2));
    assert_eq!(second.milli_timestamp(), Some(120_000));
    assert_eq!(second.changeset(), Some(8));
    assert_eq!(second.uid(), Some(4));
    assert_eq!(second.user().unwrap().unwrap(), "bob");
    assert!(second.visible());
}

#[test]
fn end_to_end_element_order_and_count() {
    // Two data blocks, one compressed; elements flatten in group order,
    // dense nodes first, then nodes, ways, relations within each group.
    let dense = dense_msg(&[100, 1], &[0, 0], &[0, 0], &[], None);
    let mut group1 = field_bytes(2, &dense);
    group1.extend_from_slice(&group_nodes(&[node_msg(1, 0, 0, &[], &[], None)]));
    group1.extend_from_slice(&field_bytes(3, &way_msg(2, &[5, 5], &[], &[])));
    group1.extend_from_slice(&field_bytes(4, &relation_msg(3, &[0], &[9], &[1])));
    let content1 = primitive_block(&[b""], &[group1], &[]);
    let group2 = group_nodes(&[node_msg(4, 0, 0, &[], &[], None)]);
    let content2 = primitive_block(&[b""], &[group2], &[]);
    let mut data = frame("OSMData", &blob_msg_zlib(&content1));
    data.extend_from_slice(&frame("OSMData", &blob_msg_raw(&content2)));

    let mut reader = BlobReader::new(data);
    let mut visited: Vec<String> = Vec::new();
    let mut group_total = 0;
    while let Some(res) = reader.next() {
        let blob = res.unwrap();
        let block = match blob.decode().unwrap() {
            BlobDecode::OsmData(b) => b,
            _ => panic!("expected data blobs"),
        };
        let log = std::cell::RefCell::new(Vec::new());
        block.for_each_element(|e| {
            let tag = match e {
                Element::DenseNode(dn) => format!("d{}", dn.id()),
                Element::Node(n) => format!("n{}", n.id()),
                Element::Way(w) => format!("w{}", w.id()),
                Element::Relation(r) => format!("r{}", r.id()),
            };
            log.borrow_mut().push(tag);
        });
        visited.extend(log.into_inner());
        let mut groups = block.groups();
        while let Some(g) = groups.next() {
            let mut dense_count = 0;
            let mut dit = g.dense_nodes();
            while dit.next().is_some() {
                dense_count += 1;
            }
            group_total += dense_count + g.nodes().len() + g.ways().len() + g.relations().len();
        }
    }
    assert_eq!(
        visited,
        vec!["d100", "d101", "n1", "w2", "r3", "n4"]
            .into_iter()
            .map(String::from)
            .collect::<Vec<String>>()
    );
    assert_eq!(group_total, visited.len());
}

#[test]
fn elements_iterator_matches_for_each() {
    let dense = dense_msg(&[8], &[0], &[0], &[], None);
    let mut group = field_bytes(2, &dense);
    group.extend_from_slice(&group_nodes(&[node_msg(1, 0, 0, &[], &[], None)]));
    let data = simple_data_blob(&[b""], &[group]);
    let mut reader = BlobReader::new(data);
    let block = reader.next().unwrap().unwrap().to_primitiveblock().unwrap();
    let mut it = block.elements();
    let mut ids = Vec::new();
    while let Some(e) = it.next() {
        match e {
            Element::DenseNode(dn) => ids.push(dn.id()),
            Element::Node(n) => ids.push(n.id()),
            Element::Way(w) => ids.push(w.id()),
            Element::Relation(r) => ids.push(r.id()),
        }
    }
    assert_eq!(ids, vec![8, 1]);
}

#[test]
fn seek_raw_positions() {
    let b1 = simple_data_blob(&[b""], &[group_nodes(&[node_msg(1, 0, 0, &[], &[], None)])]);
    let len1 = b1.len() as u64;
    let mut data = b1;
    data.extend_from_slice(&simple_data_blob(
        &[b""],
        &[group_nodes(&[node_msg(2, 0, 0, &[], &[], None)])],
    ));
    let total = data.len() as u64;
    let mut reader = BlobReader::new_seekable(data).unwrap();
    assert_eq!(reader.seek_raw(SeekFrom::Start(len1)).unwrap(), len1);
    let b = reader.next().unwrap().unwrap();
    assert_eq!(b.offset(), Some(ByteOffset(len1)));
    assert_eq!(reader.seek_raw(SeekFrom::End(0)).unwrap(), total);
    assert!(reader.next().is_none());
    assert_eq!(reader.seek_raw(SeekFrom::Start(0)).unwrap(), 0);
    assert_eq!(
        reader.seek_raw(SeekFrom::Current(len1 as i64)).unwrap(),
        len1
    );
    assert!(reader.seek_raw(SeekFrom::Current(-1 - total as i64)).is_err());
}

#[test]
fn zlib_content_actually_inflates() {
    // The same block framed raw and framed compressed must decode to the
    // same elements; this fails if the inflate step handed back its input.
    let content = primitive_block(
        &[b"", b"name", b"hall"],
        &[group_nodes(&[node_msg(21, 3, 4, &[1], &[2], None)])],
        &[],
    );
    let mut data = frame("OSMData", &blob_msg_raw(&content));
    data.extend_from_slice(&frame("OSMData", &blob_msg_zlib(&content)));
    let mut reader = BlobReader::new(data);
    let raw_block = reader.next().unwrap().unwrap().to_primitiveblock().unwrap();
    let zlib_block = reader.next().unwrap().unwrap().to_primitiveblock().unwrap();
    for block in [raw_block, zlib_block] {
        let mut it = block.elements();
        match it.next().unwrap() {
            Element::Node(n) => {
                assert_eq!(n.id(), 21);
                let mut tags = n.tags();
                assert_eq!(tags.next(), Some(("name", "hall")));
            }
            _ => panic!("expected a node"),
        }
        assert!(it.next().is_none());
    }
}

#[test]
fn corrupt_blob_header_halts_stream() {
    // A framed record whose header message bytes are garbage.
    let mut data = (3u32).to_be_bytes().to_vec();
    data.extend_from_slice(&[0xff, 0xff, 0xff]);
    data.extend_from_slice(&simple_data_blob(&[b""], &[]));
    let mut reader = BlobReader::new(data);
    match reader.next() {
        Some(Err(e)) => match e.kind() {
            ErrorKind::Protobuf { location, .. } => assert_eq!(*location, "blob header"),
            _ => panic!("wrong error kind"),
        },
        _ => panic!("expected an error"),
    }
    assert!(reader.next().is_none());
}

#[test]
fn unpacked_repeated_scalars_accepted() {
    // The way's reference column sent as two single varint fields instead
    // of one packed run.
    let mut way = field_varint(1, 7);
    way.extend_from_slice(&field_varint(8, zigzag64(100)));
    way.extend_from_slice(&field_varint(8, zigzag64(-50)));
    let data = simple_data_blob(&[b""], &[field_bytes(3, &way)]);
    let mut reader = BlobReader::new(data);
    let block = reader.next().unwrap().unwrap().to_primitiveblock().unwrap();
    let mut it = block.elements();
    match it.next().unwrap() {
        Element::Way(w) => {
            let mut refs = w.refs();
            assert_eq!(refs.next(), Some(100));
            assert_eq!(refs.next(), Some(50));
            assert_eq!(refs.next(), None);
        }
        _ => panic!("expected a way"),
    }
}

#[test]
fn unknown_fields_are_skipped() {
    // A node carrying an unknown varint field, an unknown length-delimited
    // field, and unknown fixed-width fields.
    let mut node = node_msg(5, 1, 2, &[], &[], None);
    node.extend_from_slice(&field_varint(99, 1234));
    node.extend_from_slice(&field_bytes(100, b"ignored"));
    node.extend_from_slice(&varint((101 << 3) | 1));
    node.extend_from_slice(&[0u8; 8]);
    node.extend_from_slice(&varint((102 << 3) | 5));
    node.extend_from_slice(&[0u8; 4]);
    let data = simple_data_blob(&[b""], &[group_nodes(&[node])]);
    let mut reader = BlobReader::new(data);
    let block = reader.next().unwrap().unwrap().to_primitiveblock().unwrap();
    let mut it = block.elements();
    match it.next().unwrap() {
        Element::Node(n) => assert_eq!(n.id(), 5),
        _ => panic!("expected a node"),
    }
}

#[test]
fn unknown_member_type_values_dropped() {
    // A member type outside the enum is dropped from its column, so the
    // lock-step truncation shortens the member list.
    let data = simple_data_blob(
        &[b"", b"x"],
        &[field_bytes(4, &relation_msg(9, &[1, 1], &[10, 5], &[0, 7]))],
    );
    let mut reader = BlobReader::new(data);
    let block = reader.next().unwrap().unwrap().to_primitiveblock().unwrap();
    let mut it = block.elements();
    match it.next().unwrap() {
        Element::Relation(rel) => {
            let mut members = rel.members();
            let first = members.next().unwrap();
            assert_eq!(first.member_id, 10);
            assert_eq!(first.member_type, RelMemberType::Node);
            assert!(members.next().is_none());
        }
        _ => panic!("expected a relation"),
    }
}

#[test]
fn missing_required_field_rejected() {
    // A node without its required id does not decode.
    let node = field_varint(8, zigzag64(1));
    let data = simple_data_blob(&[b""], &[group_nodes(&[node])]);
    let mut reader = BlobReader::new(data);
    let blob = reader.next().unwrap().unwrap();
    match blob.to_primitiveblock() {
        Err(e) => match e.kind() {
            ErrorKind::Protobuf { location, .. } => assert_eq!(*location, "decompressed block"),
            _ => panic!("wrong error kind"),
        },
        Ok(_) => panic!("expected a decode failure"),
    }
}

#[test]
fn unseekable_reader_reports_no_offsets() {
    let data = simple_data_blob(&[b""], &[]);
    let mut reader = BlobReader::new(data);
    let blob = reader.next().unwrap().unwrap();
    assert_eq!(blob.offset(), None);
}
