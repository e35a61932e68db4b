use datlib::{
    as_hex, decode, get_header, link_files, read_header, DatError, DatFile, Joint, Kind, MapHeadD,
    MapHeadG, Value,
};

fn be(v: &mut Vec<u8>, x: u32) {
    v.extend_from_slice(&x.to_be_bytes());
}

/// Lays out a file: header, body, relocation table, roots, external references, names.
fn build(body: &[u8], relocs: &[u32], roots: &[(u32, &str)], xrefs: &[(u32, &str)]) -> Vec<u8> {
    let mut strtab: Vec<u8> = Vec::new();
    let mut root_entries = Vec::new();
    for (child, name) in roots {
        root_entries.push((*child, strtab.len() as u32));
        strtab.extend_from_slice(name.as_bytes());
        strtab.push(0);
    }
    let mut xref_entries = Vec::new();
    for (slot, name) in xrefs {
        xref_entries.push((*slot, strtab.len() as u32));
        strtab.extend_from_slice(name.as_bytes());
        strtab.push(0);
    }
    let total = 32 + body.len() + 4 * relocs.len() + 8 * roots.len() + 8 * xrefs.len() + strtab.len();
    let mut v = Vec::new();
    be(&mut v, total as u32);
    be(&mut v, body.len() as u32);
    be(&mut v, relocs.len() as u32);
    be(&mut v, roots.len() as u32);
    be(&mut v, xrefs.len() as u32);
    be(&mut v, 0x001B);
    be(&mut v, 0);
    be(&mut v, 0);
    v.extend_from_slice(body);
    for r in relocs {
        be(&mut v, *r);
    }
    for (a, b) in root_entries.iter().chain(xref_entries.iter()) {
        be(&mut v, *a);
        be(&mut v, *b);
    }
    v.extend_from_slice(&strtab);
    assert_eq!(v.len(), total);
    v
}

/// A body with one `MapHeadD` record at offset 4 whose last field points at itself.
fn self_ref_body() -> Vec<u8> {
    let mut b = vec![0u8; 4];
    be(&mut b, 0x11);
    be(&mut b, 0x22);
    b.extend_from_slice(&[0x00, 0x33, 0x00, 0x44]);
    be(&mut b, 0x55);
    be(&mut b, 4);
    b
}

/// A body with a `MapHeadF` at 4 whose first two links are 0 and whose third
/// names the `MapHeadG` at 16.
fn shared_body() -> Vec<u8> {
    let mut b = vec![0u8; 4];
    be(&mut b, 0);
    be(&mut b, 0);
    be(&mut b, 16);
    be(&mut b, 0xAAAA);
    be(&mut b, 0xBBBB);
    b
}

fn sample() -> Vec<u8> {
    build(&self_ref_body(), &[20], &[(4, "map_head")], &[])
}

#[test]
fn test_as_hex() {
    let result = as_hex(vec![0x0, 0x1, 0x2]);
    let expected = vec!["00", "01", "02"];
    assert_eq!(result, expected);
}

#[test]
fn test_get_header() {
    let contents = sample();
    let header = get_header(contents.clone());
    let expected_file_size = contents.len() as u32;
    let observed_file_size = header.file_size;
    assert_eq!(expected_file_size, observed_file_size);
}

#[test]
fn hex_uses_uppercase_digits() {
    assert_eq!(as_hex(vec![0xAB, 0x0F, 0xF0, 0x9C]), vec!["AB", "0F", "F0", "9C"]);
    assert_eq!(as_hex(vec![]), Vec::<String>::new());
}

#[test]
fn header_fields_in_order() {
    let v = sample();
    let h = read_header(&v).unwrap();
    assert_eq!(h.file_size as usize, v.len());
    assert_eq!(h.body_size, 24);
    assert_eq!(h.reltab_count, 1);
    assert_eq!(h.root_count, 1);
    assert_eq!(h.xref_count, 0);
    assert_eq!(h.unknown_0x14, 0x001B);
}

#[test]
fn short_buffer_is_truncated_header() {
    assert_eq!(read_header(&vec![0u8; 31]).unwrap_err(), DatError::TruncatedHeader);
    assert_eq!(decode(&vec![0u8; 10], &vec![]).unwrap_err(), DatError::TruncatedHeader);
}

#[test]
fn decoded_file_size_is_buffer_length() {
    let v = sample();
    let f = decode(&v, &vec![Kind::MapHeadD]).unwrap();
    assert_eq!(f.header.file_size as usize, v.len());
    assert_eq!(f.relocations, vec![20]);
}

#[test]
fn self_reference_makes_one_node() {
    let v = sample();
    let f = decode(&v, &vec![Kind::MapHeadD]).unwrap();
    assert_eq!(f.graph.nodes.len(), 1);
    assert_eq!(f.root_nodes, vec![Some(0)]);
    let n = &f.graph.nodes[0];
    assert!(n.done);
    assert_eq!(n.offset, 4);
    assert_eq!(
        n.values,
        vec![
            Value::Num(0x11),
            Value::Num(0x22),
            Value::Num(0x33),
            Value::Num(0x44),
            Value::Num(0x55),
            Value::Link(4, Some(0)),
        ]
    );
    let d = MapHeadD::from_node(n).unwrap();
    assert_eq!(d.unknown_0x08, 0x33);
    assert_eq!(d.flags, 0x55);
    assert_eq!(d.this, Some(0));
}

#[test]
fn shared_offset_gives_same_node() {
    let v = build(&shared_body(), &[12], &[(4, "f"), (16, "g"), (4, "f_again")], &[]);
    let f = decode(&v, &vec![Kind::MapHeadF, Kind::MapHeadG, Kind::MapHeadF]).unwrap();
    assert_eq!(f.graph.nodes.len(), 2);
    let head = &f.graph.nodes[0];
    assert_eq!(head.values[2], Value::Link(16, Some(1)));
    assert_eq!(f.root_nodes, vec![Some(0), Some(1), Some(0)]);
    assert_eq!(f.graph.nodes[1].values, vec![Value::Num(0xAAAA), Value::Num(0xBBBB)]);
}

#[test]
fn zero_pointer_is_absent() {
    let v = build(&shared_body(), &[12], &[(4, "f")], &[]);
    let f = decode(&v, &vec![Kind::MapHeadF]).unwrap();
    assert_eq!(f.graph.nodes[0].values[1], Value::Link(0, None));
    let z = build(&shared_body(), &[], &[(0, "none")], &[]);
    let g = decode(&z, &vec![Kind::MapHeadF]).unwrap();
    assert_eq!(g.root_nodes, vec![None]);
    assert_eq!(g.graph.nodes.len(), 0);
}

#[test]
fn unwalked_root_has_no_node() {
    let v = sample();
    let f = decode(&v, &vec![]).unwrap();
    assert_eq!(f.root_nodes, vec![None]);
    assert_eq!(f.roots[0].child, 4);
}

#[test]
fn roots_are_listed_with_names() {
    let v = build(&shared_body(), &[12], &[(4, "stage_head"), (16, "g")], &[]);
    let f = decode(&v, &vec![Kind::MapHeadF]).unwrap();
    assert_eq!(f.roots.len(), f.header.root_count as usize);
    assert_eq!(f.root_names, vec![b"stage_head".to_vec(), b"g".to_vec()]);
    for (i, r) in f.root_nodes.iter().enumerate() {
        if let Some(n) = r {
            assert!(f.graph.nodes[*n].offset < f.header.body_size);
            assert!(!f.root_names[i].is_empty());
        }
    }
}

#[test]
fn relocation_outside_body_is_invalid() {
    let v = build(&self_ref_body(), &[22], &[(4, "m")], &[]);
    assert_eq!(decode(&v, &vec![]).unwrap_err(), DatError::InvalidRelocation);
}

#[test]
fn pointer_past_body_is_out_of_range() {
    let mut b = self_ref_body();
    b[20..24].copy_from_slice(&100u32.to_be_bytes());
    let v = build(&b, &[20], &[(4, "m")], &[]);
    assert_eq!(decode(&v, &vec![Kind::MapHeadD]).unwrap_err(), DatError::OffsetOutOfRange);
    let w = build(&self_ref_body(), &[], &[(8, "m")], &[]);
    assert_eq!(decode(&w, &vec![Kind::MapHeadD]).unwrap_err(), DatError::OffsetOutOfRange);
}

#[test]
fn size_mismatch_is_out_of_range() {
    let mut v = sample();
    v.push(0);
    assert_eq!(decode(&v, &vec![]).unwrap_err(), DatError::OffsetOutOfRange);
}

fn same_graph(a: &DatFile, b: &DatFile) -> bool {
    a.graph.nodes.len() == b.graph.nodes.len()
        && a.graph.nodes.iter().zip(b.graph.nodes.iter()).all(|(x, y)| {
            x.kind == y.kind && x.offset == y.offset && x.values == y.values && x.done == y.done
        })
        && a.root_nodes == b.root_nodes
        && a.root_names == b.root_names
}

#[test]
fn decoding_twice_gives_equal_graphs() {
    let v = build(&shared_body(), &[12], &[(4, "f"), (16, "g")], &[]);
    let kinds = vec![Kind::MapHeadF, Kind::MapHeadG];
    let a = decode(&v, &kinds).unwrap();
    let b = decode(&v, &kinds).unwrap();
    assert!(same_graph(&a, &b));
}

fn two_files() -> (DatFile, DatFile) {
    let user = build(&self_ref_body(), &[20], &[(4, "own")], &[(8, "shared_head")]);
    let owner = build(&shared_body(), &[12], &[(4, "shared_head")], &[]);
    (
        decode(&user, &vec![Kind::MapHeadD]).unwrap(),
        decode(&owner, &vec![Kind::MapHeadF]).unwrap(),
    )
}

#[test]
fn external_reference_found_in_any_order() {
    let (user, owner) = two_files();
    let links = link_files(&vec![user, owner], false).unwrap();
    let t = links[0][0].unwrap();
    assert_eq!((t.file, t.root, t.node), (1, 0, Some(0)));
    assert!(links[1].is_empty());
    let (user, owner) = two_files();
    let links = link_files(&vec![owner, user], false).unwrap();
    let t = links[1][0].unwrap();
    assert_eq!((t.file, t.root, t.node), (0, 0, Some(0)));
}

#[test]
fn missing_root_is_unresolved() {
    let (user, _) = two_files();
    assert_eq!(
        link_files(&vec![user], false).unwrap_err(),
        DatError::UnresolvedExternalReference
    );
    let (user, _) = two_files();
    let links = link_files(&vec![user], true).unwrap();
    assert_eq!(links, vec![vec![None]]);
}

#[test]
fn joint_keeps_float_bits() {
    let mut b = vec![0u8; 4];
    be(&mut b, 1);
    be(&mut b, 2);
    be(&mut b, 0);
    be(&mut b, 0);
    be(&mut b, 0);
    for x in [1.0f32, 2.0, 3.0, 0.5, 0.5, 0.5, -1.0, 0.0, 4.0] {
        be(&mut b, x.to_bits());
    }
    be(&mut b, 0);
    be(&mut b, 7);
    let v = build(&b, &[], &[(4, "joint")], &[]);
    let f = decode(&v, &vec![Kind::Joint]).unwrap();
    let j = Joint::from_node(&f.graph.nodes[0]).unwrap();
    assert_eq!((j.unknown_0x00, j.flags, j.unknown_0x3c), (1, 2, 7));
    assert_eq!((j.child, j.next, j.data, j.transform), (None, None, None, None));
    assert_eq!(f32::from_bits(j.rotation[1]), 2.0);
    assert_eq!(f32::from_bits(j.position[0]), -1.0);
    assert!(MapHeadG::from_node(&f.graph.nodes[0]).is_none());
}

#[test]
fn name_outside_string_table_is_out_of_range() {
    let mut v = sample();
    v[64..68].copy_from_slice(&1000u32.to_be_bytes());
    assert_eq!(decode(&v, &vec![]).unwrap_err(), DatError::OffsetOutOfRange);
}

#[test]
fn name_stops_at_first_zero() {
    let v = build(&self_ref_body(), &[], &[(4, "ab"), (4, "c")], &[]);
    let f = decode(&v, &vec![]).unwrap();
    assert_eq!(f.root_names, vec![b"ab".to_vec(), b"c".to_vec()]);
    assert_eq!(f.roots[1].name, 3);
}
