//! Decoding a whole file: header, tables, names and the node graph of its roots.
use vstd::prelude::*;
use crate::bytes::{be32, read_u32};
use crate::error::DatError;
use crate::graph::{closed, covers, Graph};
use crate::header::{header_of, read_header, Header, HEADER_SIZE};
use crate::schema::Kind;

verus! {

/// A named entry point into the body.
#[derive(Debug, Clone, Copy, PartialEq, Eq, Structural)]
pub struct Root {
    /// Body offset of the record the entry names.
    pub child: u32,
    /// Offset of the entry's name in the string table.
    pub name: u32,
}

/// A body slot whose pointer is supplied by a root of the same name in another file.
#[derive(Debug, Clone, Copy, PartialEq, Eq, Structural)]
pub struct Xref {
    /// Body offset of the slot.
    pub offset: u32,
    /// Offset of the reference's name in the string table.
    pub name: u32,
}

/// A decoded file.
#[derive(Debug)]
pub struct DatFile {
    /// The fixed header.
    pub header: Header,
    /// The body, which all record offsets are relative to.
    pub body: Vec<u8>,
    /// Body offsets of the words that hold pointers.
    pub relocations: Vec<u32>,
    /// The root table, in file order.
    pub roots: Vec<Root>,
    /// The name of each root.
    pub root_names: Vec<Vec<u8>>,
    /// The node of each root that was walked; none for one that was not, or whose offset is 0.
    pub root_nodes: Vec<Option<usize>>,
    /// The external-reference table, in file order.
    pub xrefs: Vec<Xref>,
    /// The name of each external reference.
    pub xref_names: Vec<Vec<u8>>,
    /// The nodes that the walk from the roots materialized.
    pub graph: Graph,
}

/// File offset of the relocation table.
pub open spec fn reltab_start(h: Header) -> int {
    HEADER_SIZE + h.body_size
}

/// File offset of the root table.
pub open spec fn roots_start(h: Header) -> int {
    reltab_start(h) + 4 * h.reltab_count
}

/// File offset of the external-reference table.
pub open spec fn xrefs_start(h: Header) -> int {
    roots_start(h) + 8 * h.root_count
}

/// File offset of the string table.
pub open spec fn strtab_start(h: Header) -> int {
    xrefs_start(h) + 8 * h.xref_count
}

/// Whether the regions that `h` describes tile a buffer of `len` bytes.
pub open spec fn regions_fit(h: Header, len: int) -> bool {
    &&& h.file_size == len
    &&& h.body_size < h.file_size
    &&& strtab_start(h) <= h.file_size
}

/// The `i`th relocation entry.
pub open spec fn reloc_at(s: Seq<u8>, i: int) -> u32 {
    be32(s, reltab_start(header_of(s)) + 4 * i) as u32
}

/// The `i`th root entry.
pub open spec fn root_at(s: Seq<u8>, i: int) -> Root {
    let p = pair_at(s, roots_start(header_of(s)), i);
    Root { child: p.0, name: p.1 }
}

/// The `i`th external-reference entry.
pub open spec fn xref_at(s: Seq<u8>, i: int) -> Xref {
    let p = pair_at(s, xrefs_start(header_of(s)), i);
    Xref { offset: p.0, name: p.1 }
}

/// The first position at or after `p` that holds a zero byte, or the end.
pub open spec fn name_end(s: Seq<u8>, p: int) -> int
    decreases s.len() - p,
{
    if p >= s.len() || p < 0 || s[p] == 0 {
        p
    } else {
        name_end(s, p + 1)
    }
}

/// The name at offset `off` of the string table.
pub open spec fn name_at(s: Seq<u8>, off: u32) -> Seq<u8> {
    let p = strtab_start(header_of(s)) + off;
    s.subrange(p, name_end(s, p))
}

/// Whether name offset `off` lies inside the string table.
pub open spec fn name_ok(s: Seq<u8>, off: u32) -> bool {
    strtab_start(header_of(s)) + off < s.len()
}

/// Whether every relocation entry names a word inside the body.
pub open spec fn relocs_ok(s: Seq<u8>) -> bool {
    forall|i: int|
        0 <= i < header_of(s).reltab_count ==> reloc_at(s, i) + 4 <= header_of(s).body_size
}

/// Whether every root and external-reference name lies inside the string table.
pub open spec fn names_ok(s: Seq<u8>) -> bool {
    &&& forall|i: int|
        0 <= i < header_of(s).root_count ==> name_ok(
            s,
            #[trigger] pair_name(s, roots_start(header_of(s)), i),
        )
    &&& forall|i: int|
        0 <= i < header_of(s).xref_count ==> name_ok(
            s,
            #[trigger] pair_name(s, xrefs_start(header_of(s)), i),
        )
}

/// The body of a buffer whose regions fit.
pub open spec fn body_of(s: Seq<u8>) -> Seq<u8> {
    s.subrange(HEADER_SIZE as int, HEADER_SIZE + header_of(s).body_size)
}

/// The two words of the `i`th entry of the table at `start`.
pub open spec fn pair_at(s: Seq<u8>, start: int, i: int) -> (u32, u32) {
    (be32(s, start + 8 * i) as u32, pair_name(s, start, i))
}

/// The second word, a name offset, of the `i`th entry of the table at `start`.
pub open spec fn pair_name(s: Seq<u8>, start: int, i: int) -> u32 {
    be32(s, start + 8 * i + 4) as u32
}

/// Reads the relocation table, failing on an entry outside the body.
fn read_relocations(buf: &Vec<u8>, h: Header) -> (r: Result<Vec<u32>, DatError>)
    requires
        buf@.len() >= HEADER_SIZE,
        h == header_of(buf@),
        regions_fit(h, buf@.len() as int),
    ensures
        r is Ok <==> relocs_ok(buf@),
        r is Ok ==> r->Ok_0@.len() == h.reltab_count && forall|i: int|
            0 <= i < h.reltab_count ==> (#[trigger] r->Ok_0@[i]) == reloc_at(buf@, i),
        r is Err ==> r == Err::<Vec<u32>, DatError>(DatError::InvalidRelocation),
{
    let mut out: Vec<u32> = Vec::new();
    let mut p: usize = HEADER_SIZE + h.body_size as usize;
    let mut i: u32 = 0;
    while i < h.reltab_count
        invariant
            h == header_of(buf@),
            regions_fit(h, buf@.len() as int),
            i <= h.reltab_count,
            p == reltab_start(h) + 4 * i,
            out@.len() == i,
            forall|j: int| 0 <= j < i ==> (#[trigger] out@[j]) == reloc_at(buf@, j),
            forall|j: int| 0 <= j < i ==> reloc_at(buf@, j) + 4 <= h.body_size,
        decreases h.reltab_count - i,
    {
        let o = read_u32(buf, p);
        if o as u64 + 4 > h.body_size as u64 {
            assert(!relocs_ok(buf@)) by {
                assert(reloc_at(buf@, i as int) == o);
            }
            return Err(DatError::InvalidRelocation);
        }
        out.push(o);
        p = p + 4;
        i = i + 1;
    }
    Ok(out)
}

/// Reads a table of `count` pairs of words starting at `start`, with the name
/// that the second word of each pair gives; fails on a name outside the string table.
fn read_pairs(buf: &Vec<u8>, h: Header, start: usize, count: u32) -> (r: Result<
    (Vec<(u32, u32)>, Vec<Vec<u8>>),
    DatError,
>)
    requires
        buf@.len() >= HEADER_SIZE,
        h == header_of(buf@),
        regions_fit(h, buf@.len() as int),
        start + 8 * count <= strtab_start(h),
    ensures
        r is Ok <==> forall|i: int|
            0 <= i < count ==> name_ok(buf@, #[trigger] pair_name(buf@, start as int, i)),
        r is Ok ==> {
            &&& r->Ok_0.0@.len() == count
            &&& r->Ok_0.1@.len() == count
            &&& forall|i: int|
                0 <= i < count ==> #[trigger] r->Ok_0.0@[i] == pair_at(buf@, start as int, i) && r->Ok_0.1@[i]@ == name_at(buf@, pair_name(buf@, start as int, i))
        },
        r is Err ==> r == Err::<(Vec<(u32, u32)>, Vec<Vec<u8>>), DatError>(
            DatError::OffsetOutOfRange,
        ),
{
    let n = buf.len();
    let st = HEADER_SIZE + h.body_size as usize + 4 * (h.reltab_count as usize) + 8 * (
    h.root_count as usize) + 8 * (h.xref_count as usize);
    let mut pairs: Vec<(u32, u32)> = Vec::new();
    let mut names: Vec<Vec<u8>> = Vec::new();
    let mut p: usize = start;
    let mut i: u32 = 0;
    while i < count
        invariant
            h == header_of(buf@),
            regions_fit(h, buf@.len() as int),
            n == buf@.len(),
            st == strtab_start(h),
            start + 8 * count <= st,
            i <= count,
            p == start + 8 * i,
            pairs@.len() == i,
            names@.len() == i,
            forall|j: int|
                0 <= j < i ==> #[trigger] pairs@[j] == pair_at(buf@, start as int, j) && names@[j]@ == name_at(buf@, pair_name(buf@, start as int, j)),
            forall|j: int|
                0 <= j < i ==> name_ok(buf@, #[trigger] pair_name(buf@, start as int, j)),
        decreases count - i,
    {
        let a = read_u32(buf, p);
        let b = read_u32(buf, p + 4);
        if st as u64 + b as u64 >= n as u64 {
            assert(pair_name(buf@, start as int, i as int) == b);
            assert(!name_ok(buf@, pair_name(buf@, start as int, i as int)));
            return Err(DatError::OffsetOutOfRange);
        }
        let name = read_name(buf, st + b as usize);
        pairs.push((a, b));
        names.push(name);
        p = p + 8;
        i = i + 1;
    }
    Ok((pairs, names))
}

/// What a successful decode of buffer `s`, walking root `i` as a record of
/// kind `kinds[i]`, holds.
pub open spec fn decoded(s: Seq<u8>, kinds: Seq<Kind>, f: DatFile) -> bool {
    let h = header_of(s);
    &&& s.len() >= HEADER_SIZE
    &&& regions_fit(h, s.len() as int)
    &&& relocs_ok(s)
    &&& names_ok(s)
    &&& f.header == h
    &&& f.body@ == body_of(s)
    &&& f.relocations@.len() == h.reltab_count
    &&& forall|i: int| 0 <= i < h.reltab_count ==> #[trigger] f.relocations@[i] == reloc_at(s, i)
    &&& f.roots@.len() == h.root_count
    &&& f.root_names@.len() == h.root_count
    &&& forall|i: int|
        0 <= i < h.root_count ==> #[trigger] f.roots@[i] == root_at(s, i) && f.root_names@[i]@
            == name_at(s, root_at(s, i).name)
    &&& f.xrefs@.len() == h.xref_count
    &&& f.xref_names@.len() == h.xref_count
    &&& forall|i: int|
        0 <= i < h.xref_count ==> #[trigger] f.xrefs@[i] == xref_at(s, i) && f.xref_names@[i]@
            == name_at(s, xref_at(s, i).name)
    &&& f.graph.wf(f.body@)
    &&& f.graph.complete()
    &&& f.root_nodes@.len() == h.root_count
    &&& forall|i: int| 0 <= i < h.root_count ==> root_walked(f, kinds, i)
}

/// Root `i` has a node exactly when it was walked and its offset is not 0,
/// and that node is the one at its offset.
pub open spec fn root_walked(f: DatFile, kinds: Seq<Kind>, i: int) -> bool {
    let c = f.roots@[i].child;
    &&& (#[trigger] f.root_nodes@[i]) is None <==> (i >= kinds.len() || c == 0)
    &&& f.root_nodes@[i] is Some ==> {
        let n = f.root_nodes@[i].unwrap();
        &&& n < f.graph.nodes@.len()
        &&& f.graph.nodes@[n as int].offset == c
        &&& f.graph.slots@[c as int] == Some(n)
    }
}

/// Whether some set of records closed under the pointer fields lies inside
/// the body and holds every root that is to be walked, with its kind.
pub open spec fn roots_walkable(s: Seq<u8>, kinds: Seq<Kind>) -> bool {
    exists|set: Set<(u32, Kind)>| #[trigger] closed(body_of(s), set) && holds_roots(s, kinds, set)
}

/// Whether the set holds each root that is to be walked and whose offset is not 0.
pub open spec fn holds_roots(s: Seq<u8>, kinds: Seq<Kind>, set: Set<(u32, Kind)>) -> bool {
    forall|i: int|
        0 <= i < header_of(s).root_count && i < kinds.len() && #[trigger] root_at(s, i).child != 0
            ==> set.contains((root_at(s, i).child, kinds[i]))
}

/// Decodes a file, walking root `i` as a record of kind `kinds[i]`; a root
/// past the end of `kinds` is listed but not walked.
pub fn decode(buf: &Vec<u8>, kinds: &Vec<Kind>) -> (r: Result<DatFile, DatError>)
    ensures
        buf@.len() < HEADER_SIZE ==> r == Err::<DatFile, DatError>(DatError::TruncatedHeader),
        buf@.len() >= HEADER_SIZE && !regions_fit(header_of(buf@), buf@.len() as int) ==> r
            == Err::<DatFile, DatError>(DatError::OffsetOutOfRange),
        buf@.len() >= HEADER_SIZE && regions_fit(header_of(buf@), buf@.len() as int) && !relocs_ok(
            buf@,
        ) ==> r == Err::<DatFile, DatError>(DatError::InvalidRelocation),
        buf@.len() >= HEADER_SIZE && regions_fit(header_of(buf@), buf@.len() as int) && relocs_ok(
            buf@,
        ) && !names_ok(buf@) ==> r == Err::<DatFile, DatError>(DatError::OffsetOutOfRange),
        r is Err ==> r->Err_0 != DatError::UnresolvedExternalReference,
        r is Ok ==> decoded(buf@, kinds@, r->Ok_0),
        buf@.len() >= HEADER_SIZE && regions_fit(header_of(buf@), buf@.len() as int) && relocs_ok(
            buf@,
        ) && names_ok(buf@) && roots_walkable(buf@, kinds@) ==> r is Ok,
{
    let h = match read_header(buf) {
        Ok(h) => h,
        Err(e) => {
            return Err(e);
        },
    };
    let n = buf.len();
    let st: u64 = HEADER_SIZE as u64 + h.body_size as u64 + 4 * (h.reltab_count as u64) + 8 * (
    h.root_count as u64) + 8 * (h.xref_count as u64);
    if h.file_size as u64 != n as u64 || h.body_size >= h.file_size || st > h.file_size as u64 {
        return Err(DatError::OffsetOutOfRange);
    }
    let relocations = read_relocations(buf, h)?;
    let rs = HEADER_SIZE + h.body_size as usize + 4 * (h.reltab_count as usize);
    let xs = rs + 8 * (h.root_count as usize);
    let (root_pairs, root_names) = read_pairs(buf, h, rs, h.root_count)?;
    let (xref_pairs, xref_names) = read_pairs(buf, h, xs, h.xref_count)?;
    let body = copy_range(buf, HEADER_SIZE, HEADER_SIZE + h.body_size as usize);
    let mut roots: Vec<Root> = Vec::new();
    let mut i: usize = 0;
    while i < root_pairs.len()
        invariant
            roots@.len() == i,
            i <= root_pairs@.len(),
            forall|j: int|
                0 <= j < i ==> #[trigger] roots@[j] == (Root {
                    child: root_pairs@[j].0,
                    name: root_pairs@[j].1,
                }),
        decreases root_pairs@.len() - i,
    {
        roots.push(Root { child: root_pairs[i].0, name: root_pairs[i].1 });
        i = i + 1;
    }
    let mut xrefs: Vec<Xref> = Vec::new();
    let mut i: usize = 0;
    while i < xref_pairs.len()
        invariant
            xrefs@.len() == i,
            i <= xref_pairs@.len(),
            forall|j: int|
                0 <= j < i ==> #[trigger] xrefs@[j] == (Xref {
                    offset: xref_pairs@[j].0,
                    name: xref_pairs@[j].1,
                }),
        decreases xref_pairs@.len() - i,
    {
        xrefs.push(Xref { offset: xref_pairs[i].0, name: xref_pairs[i].1 });
        i = i + 1;
    }
    let (graph, root_nodes) = match walk_roots(&body, &roots, kinds) {
        Ok(w) => w,
        Err(e) => {
            proof {
                if roots_walkable(buf@, kinds@) {
                    let set = choose|set: Set<(u32, Kind)>|
                        #[trigger] closed(body_of(buf@), set) && holds_roots(buf@, kinds@, set);
                    assert forall|i: int|
                        0 <= i < roots@.len() && i < kinds@.len() && #[trigger] roots@[i].child
                            != 0 implies set.contains((roots@[i].child, kinds@[i])) by {
                        assert(roots@[i] == root_at(buf@, i));
                    }
                }
            }
            return Err(e);
        },
    };
    Ok(
        DatFile {
            header: h,
            body,
            relocations,
            roots,
            root_names,
            root_nodes,
            xrefs,
            xref_names,
            graph,
        },
    )
}

/// A decoded file's header gives the buffer's own length as the file size.
pub proof fn lemma_file_size(s: Seq<u8>, kinds: Seq<Kind>, f: DatFile)
    requires
        decoded(s, kinds, f),
    ensures
        f.header.file_size == s.len(),
{
}

/// A decoded file lists as many roots as its header counts, and every root
/// that was walked has a node that lies inside the body.
pub proof fn lemma_roots_in_body(s: Seq<u8>, kinds: Seq<Kind>, f: DatFile, i: int)
    requires
        decoded(s, kinds, f),
        0 <= i < f.header.root_count,
    ensures
        f.roots@.len() == f.header.root_count,
        f.root_nodes@[i] is Some ==> {
            let n = f.root_nodes@[i].unwrap();
            &&& n < f.graph.nodes@.len()
            &&& f.graph.nodes@[n as int].offset == f.roots@[i].child
            &&& f.graph.nodes@[n as int].offset < f.header.body_size
        },
{
    assert(root_walked(f, kinds, i));
    if f.root_nodes@[i] is Some {
        let n = f.root_nodes@[i].unwrap();
        assert(f.graph.nodes@[n as int].offset < f.body@.len());
    }
}

/// Whether the set holds each root that is to be walked and whose offset is not 0.
pub open spec fn holds_root_list(roots: Seq<Root>, kinds: Seq<Kind>, set: Set<(u32, Kind)>) -> bool {
    forall|i: int|
        0 <= i < roots.len() && i < kinds.len() && #[trigger] roots[i].child != 0 ==> set.contains(
            (roots[i].child, kinds[i]),
        )
}

/// Walks root `i` as a record of kind `kinds[i]`, for each root that has a kind.
fn walk_roots(body: &Vec<u8>, roots: &Vec<Root>, kinds: &Vec<Kind>) -> (r: Result<
    (Graph, Vec<Option<usize>>),
    DatError,
>)
    ensures
        r is Ok ==> {
            let (graph, root_nodes) = r->Ok_0;
            &&& graph.wf(body@)
            &&& graph.complete()
            &&& root_nodes@.len() == roots@.len()
            &&& forall|j: int|
                0 <= j < roots@.len() ==> {
                    let c = roots@[j].child;
                    &&& (#[trigger] root_nodes@[j]) is None <==> (j >= kinds@.len() || c == 0)
                    &&& root_nodes@[j] is Some ==> {
                        let m = root_nodes@[j].unwrap();
                        &&& m < graph.nodes@.len()
                        &&& graph.nodes@[m as int].offset == c
                        &&& graph.slots@[c as int] == Some(m)
                    }
                }
        },
        r is Err ==> r->Err_0 == DatError::OffsetOutOfRange,
        forall|set: Set<(u32, Kind)>|
            #[trigger] closed(body@, set) && holds_root_list(roots@, kinds@, set) ==> r is Ok,
{
    let mut graph = Graph::new(body.len());
    let mut root_nodes: Vec<Option<usize>> = Vec::new();
    let mut i: usize = 0;
    while i < roots.len()
        invariant
            graph.wf(body@),
            graph.complete(),
            root_nodes@.len() == i,
            i <= roots@.len(),
            forall|set: Set<(u32, Kind)>|
                #[trigger] closed(body@, set) && holds_root_list(roots@, kinds@, set) ==> covers(
                    graph,
                    set,
                ),
            forall|j: int|
                0 <= j < i ==> {
                    let c = roots@[j].child;
                    &&& (#[trigger] root_nodes@[j]) is None <==> (j >= kinds@.len() || c == 0)
                    &&& root_nodes@[j] is Some ==> {
                        let m = root_nodes@[j].unwrap();
                        &&& m < graph.nodes@.len()
                        &&& graph.nodes@[m as int].offset == c
                        &&& graph.slots@[c as int] == Some(m)
                    }
                },
        decreases roots@.len() - i,
    {
        let node = if i < kinds.len() {
            let ghost before = graph;
            proof {
                assert forall|set: Set<(u32, Kind)>|
                    #[trigger] closed(body@, set) && holds_root_list(roots@, kinds@, set) implies (
                    roots@[i as int].child == 0 || set.contains(
                        (roots@[i as int].child, kinds@[i as int]),
                    )) by {
                    if roots@[i as int].child != 0 {
                        assert(set.contains((roots@[i as int].child, kinds@[i as int])));
                    }
                }
            }
            let t = graph.resolve(body, roots[i].child, kinds[i])?;
            proof {
                assert forall|q: int| 0 <= q < graph.nodes@.len() implies (
                #[trigger] graph.nodes@[q]).done by {
                    if q < before.nodes@.len() {
                        assert(graph.nodes@[q] == before.nodes@[q]);
                    }
                }
                assert forall|j: int|
                    0 <= j < i && root_nodes@[j] is Some implies graph.slots@[roots@[j].child as int]
                    == root_nodes@[j] && graph.nodes@[root_nodes@[j].unwrap() as int]
                    == before.nodes@[root_nodes@[j].unwrap() as int] by {
                    let c = roots@[j].child as int;
                    assert(before.slots@[c] is Some);
                }
            }
            t
        } else {
            None
        };
        root_nodes.push(node);
        i = i + 1;
    }
    Ok((graph, root_nodes))
}

/// Two successful decodes of the same buffer with the same kinds agree on the
/// header, the tables and the names, and on which roots have a node and the
/// offset of that node.
#[verifier::rlimit(100)]
pub proof fn lemma_decodes_agree(s: Seq<u8>, kinds: Seq<Kind>, f1: DatFile, f2: DatFile)
    requires
        decoded(s, kinds, f1),
        decoded(s, kinds, f2),
    ensures
        f1.header == f2.header,
        f1.body@ == f2.body@,
        f1.relocations@ == f2.relocations@,
        f1.roots@ == f2.roots@,
        f1.xrefs@ == f2.xrefs@,
        f1.root_names@.len() == f2.root_names@.len(),
        forall|i: int|
            0 <= i < f1.root_names@.len() ==> #[trigger] f1.root_names@[i]@ == f2.root_names@[i]@,
        forall|i: int|
            0 <= i < f1.xref_names@.len() ==> #[trigger] f1.xref_names@[i]@ == f2.xref_names@[i]@,
        forall|i: int|
            0 <= i < f1.root_nodes@.len() ==> (#[trigger] f1.root_nodes@[i] is Some
                <==> f2.root_nodes@[i] is Some),
        forall|i: int|
            0 <= i < f1.root_nodes@.len() && #[trigger] f1.root_nodes@[i] is Some ==> f1.graph.nodes@[
                f1.root_nodes@[i].unwrap() as int].offset == f2.graph.nodes@[f2.root_nodes@[
                i].unwrap() as int].offset,
{
    assert(f1.relocations@ =~= f2.relocations@);
    assert(f1.roots@ =~= f2.roots@);
    assert(f1.xrefs@ =~= f2.xrefs@);
    assert forall|i: int| 0 <= i < f1.root_names@.len() implies #[trigger] f1.root_names@[i]@
        == f2.root_names@[i]@ by {
        assert(f1.roots@[i] == root_at(s, i));
        assert(f2.roots@[i] == root_at(s, i));
    }
    assert forall|i: int| 0 <= i < f1.xref_names@.len() implies #[trigger] f1.xref_names@[i]@
        == f2.xref_names@[i]@ by {
        assert(f1.xrefs@[i] == xref_at(s, i));
        assert(f2.xrefs@[i] == xref_at(s, i));
    }
    assert forall|i: int| 0 <= i < f1.root_nodes@.len() implies (#[trigger] f1.root_nodes@[i] is Some
        <==> f2.root_nodes@[i] is Some) by {
        assert(root_walked(f1, kinds, i));
        assert(root_walked(f2, kinds, i));
    }
    assert forall|i: int|
        0 <= i < f1.root_nodes@.len() && #[trigger] f1.root_nodes@[i] is Some implies f1.graph.nodes@[
        f1.root_nodes@[i].unwrap() as int].offset == f2.graph.nodes@[f2.root_nodes@[
        i].unwrap() as int].offset by {
        assert(root_walked(f1, kinds, i));
        assert(root_walked(f2, kinds, i));
    }
}

/// Reads the bytes from `start` up to the next zero byte or the end.
fn read_name(buf: &Vec<u8>, start: usize) -> (r: Vec<u8>)
    requires
        start <= buf@.len(),
    ensures
        r@ == buf@.subrange(start as int, name_end(buf@, start as int)),
{
    let n = buf.len();
    let mut e: usize = start;
    while e < n && buf[e] != 0
        invariant
            start <= e <= n,
            n == buf@.len(),
            name_end(buf@, start as int) == name_end(buf@, e as int),
        decreases n - e,
    {
        e = e + 1;
    }
    copy_range(buf, start, e)
}

/// The bytes of `buf` from `a` up to `b`.
fn copy_range(buf: &Vec<u8>, a: usize, b: usize) -> (r: Vec<u8>)
    requires
        a <= b <= buf@.len(),
    ensures
        r@ == buf@.subrange(a as int, b as int),
{
    let mut r: Vec<u8> = Vec::new();
    let mut i: usize = a;
    while i < b
        invariant
            a <= i <= b,
            b <= buf@.len(),
            r@ == buf@.subrange(a as int, i as int),
        decreases b - i,
    {
        r.push(buf[i]);
        i = i + 1;
        assert(r@ =~= buf@.subrange(a as int, i as int));
    }
    r
}

} // verus!
