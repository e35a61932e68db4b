//! The node arena that a decode pass fills, and the resolver that fills it.
//!
//! Every record of the body that a walk reaches becomes one node of the arena,
//! and every pointer field holds the node's index. A table indexed by body
//! offset maps each offset to its node, so a record that many fields point at
//! is materialized once, and a field that points back at a record still being
//! filled in gets that record's index instead of a fresh walk.
use vstd::prelude::*;
use crate::bytes::{be16, be32, read_u16, read_u32};
use crate::error::DatError;
use crate::schema::{fields_of, layout, record_size, size_of, span, width, Kind, Shape};

verus! {

/// The decoded value of one field.
#[derive(Debug, Clone, Copy, PartialEq, Eq, Structural)]
pub enum Value {
    /// A scalar field.
    Num(u32),
    /// An offset into untyped data, not followed.
    Raw(u32),
    /// A pointer field: the offset stored in the body, and the node it names (none for 0).
    Link(u32, Option<usize>),
}

/// One materialized record.
#[derive(Debug)]
pub struct Node {
    /// The layout the record was read with.
    pub kind: Kind,
    /// Body offset where the record starts.
    pub offset: u32,
    /// One value for each field of the layout, once `done`.
    pub values: Vec<Value>,
    /// Set once every field has been read; unset while the record's fields are being walked.
    pub done: bool,
}

/// The nodes of one decode pass, with the table from body offsets to nodes.
#[derive(Debug)]
pub struct Graph {
    /// The arena; a node's handle is its index here.
    pub nodes: Vec<Node>,
    /// For each body offset, the node materialized there, if any.
    pub slots: Vec<Option<usize>>,
}

/// Whether `v` is what a field of shape `s` at body offset `at` decodes to.
#[verifier::opaque]
pub open spec fn value_ok(body: Seq<u8>, at: int, s: Shape, v: Value, nodes: Seq<Node>) -> bool {
    match s {
        Shape::Byte => v == Value::Num(body[at] as u32),
        Shape::Half => v == Value::Num(be16(body, at) as u32),
        Shape::Word => v == Value::Num(be32(body, at) as u32),
        Shape::Raw => v == Value::Raw(be32(body, at) as u32),
        Shape::Ptr(_) => match v {
            Value::Link(raw, t) => raw as int == be32(body, at) && (raw == 0 ==> t is None) && (
            raw != 0 ==> (t is Some && t.unwrap() < nodes.len() && nodes[t.unwrap() as int].offset
                == raw)),
            _ => false,
        },
    }
}

/// Whether the values of node `n` are its fields as read from the body.
pub open spec fn fields_ok(body: Seq<u8>, n: Node, nodes: Seq<Node>) -> bool {
    let l = layout(n.kind);
    &&& n.values@.len() == l.len()
    &&& forall|i: int|
        0 <= i < l.len() ==> value_ok(
            body,
            n.offset + span(l.take(i)),
            #[trigger] l[i],
            n.values@[i],
            nodes,
        )
}

/// Number of body offsets that no node occupies yet.
pub open spec fn free_count(s: Seq<Option<usize>>) -> nat
    decreases s.len(),
{
    if s.len() == 0 {
        0
    } else {
        free_count(s.drop_last()) + if s.last() is None {
            1nat
        } else {
            0nat
        }
    }
}

/// Whether the nodes of `b` extend those of `a`: the old ones unchanged, the
/// new ones complete, and every occupied offset still mapped to the same node.
pub open spec fn extends(a: Graph, b: Graph) -> bool {
    &&& b.nodes@.len() >= a.nodes@.len()
    &&& forall|j: int| 0 <= j < a.nodes@.len() ==> b.nodes@[j] == #[trigger] a.nodes@[j]
    &&& forall|j: int| a.nodes@.len() <= j < b.nodes@.len() ==> (#[trigger] b.nodes@[j]).done
    &&& b.slots@.len() == a.slots@.len()
    &&& forall|o: int|
        0 <= o < a.slots@.len() && (#[trigger] a.slots@[o]) is Some ==> b.slots@[o] == a.slots@[o]
}

/// What resolving `offset` as a record of kind `k` does, from graph `a` to graph `b`.
pub open spec fn resolved(
    a: Graph,
    b: Graph,
    body: Seq<u8>,
    offset: u32,
    k: Kind,
    r: Result<Option<usize>, DatError>,
) -> bool {
    &&& r is Ok ==> b.wf(body) && extends(a, b)
    &&& r is Err ==> r == Err::<Option<usize>, DatError>(DatError::OffsetOutOfRange)
    &&& offset == 0 <==> r == Ok::<Option<usize>, DatError>(None)
    &&& offset == 0 ==> b == a
    &&& offset != 0 && offset < body.len() && a.slots@[offset as int] is Some ==> {
        &&& r == Ok::<Option<usize>, DatError>(a.slots@[offset as int])
        &&& b == a
    }
    &&& offset != 0 && offset >= body.len() ==> r is Err
    &&& offset != 0 && offset < body.len() && a.slots@[offset as int] is None && offset + size_of(k)
        > body.len() ==> r is Err
    &&& r is Ok && r->Ok_0 is Some ==> {
        let i = r->Ok_0->Some_0;
        &&& offset < body.len()
        &&& b.slots@[offset as int] == Some(i)
        &&& i < b.nodes@.len()
        &&& b.nodes@[i as int].offset == offset
    }
    &&& r is Ok && r->Ok_0 is Some && a.slots@[offset as int] is None ==> {
        &&& r->Ok_0->Some_0 == a.nodes@.len()
        &&& b.nodes@[a.nodes@.len() as int].kind == k
    }
}

/// Whether a record of kind `k` at `o` lies inside a body of this length, at a non-zero offset.
pub open spec fn in_range(body: Seq<u8>, o: u32, k: Kind) -> bool {
    0 < o < body.len() && o + size_of(k) <= body.len()
}

/// Whether the field of shape `sh` at `pos`, if it is a pointer, is 0 or names a
/// record of the set.
pub open spec fn field_in(body: Seq<u8>, s: Set<(u32, Kind)>, pos: int, sh: Shape) -> bool {
    match sh {
        Shape::Ptr(ck) => be32(body, pos) == 0 || s.contains((be32(body, pos) as u32, ck)),
        _ => true,
    }
}

/// Whether field `j` of the record of kind `k` at `o` is 0 or names a record of the set.
pub open spec fn field_j_in(body: Seq<u8>, s: Set<(u32, Kind)>, o: u32, k: Kind, j: int) -> bool {
    field_in(body, s, o + span(layout(k).take(j)), layout(k)[j])
}

/// Whether a set of records (offset and kind) lies inside the body and holds
/// every record that a pointer field of one of them names.
pub open spec fn closed(body: Seq<u8>, s: Set<(u32, Kind)>) -> bool {
    forall|o: u32, k: Kind|
        #[trigger] s.contains((o, k)) ==> in_range(body, o, k) && forall|j: int|
            0 <= j < layout(k).len() ==> #[trigger] field_j_in(body, s, o, k, j)
}

/// Whether every node of the graph is a record of the set.
pub open spec fn covers(g: Graph, s: Set<(u32, Kind)>) -> bool {
    forall|i: int|
        0 <= i < g.nodes@.len() ==> s.contains(
            ((#[trigger] g.nodes@[i]).offset, g.nodes@[i].kind),
        )
}

impl Graph {
    /// The table covers the body; each node sits in the body at a distinct
    /// non-zero offset that maps back to it; each complete node holds its fields.
    pub open spec fn wf(self, body: Seq<u8>) -> bool {
        &&& self.slots@.len() == body.len()
        &&& forall|o: int|
            0 <= o < self.slots@.len() && (#[trigger] self.slots@[o]) is Some ==> {
                &&& self.slots@[o].unwrap() < self.nodes@.len()
                &&& self.nodes@[self.slots@[o].unwrap() as int].offset == o
            }
        &&& forall|i: int|
            0 <= i < self.nodes@.len() ==> {
                &&& (#[trigger] self.nodes@[i]).offset != 0
                &&& self.nodes@[i].offset + size_of(self.nodes@[i].kind) <= body.len()
                &&& self.nodes@[i].offset < body.len()
                &&& self.slots@[self.nodes@[i].offset as int] == Some(i as usize)
            }
        &&& forall|i: int|
            0 <= i < self.nodes@.len() && (#[trigger] self.nodes@[i]).done ==> fields_ok(
                body,
                self.nodes@[i],
                self.nodes@,
            )
    }

    /// Whether every node has all its fields.
    pub open spec fn complete(self) -> bool {
        forall|i: int| 0 <= i < self.nodes@.len() ==> (#[trigger] self.nodes@[i]).done
    }

    /// An empty arena for a body of `len` bytes.
    pub fn new(len: usize) -> (g: Graph)
        ensures
            g.nodes@.len() == 0,
            g.slots@.len() == len,
            forall|o: int| 0 <= o < len ==> (#[trigger] g.slots@[o]) is None,
    {
        let mut slots: Vec<Option<usize>> = Vec::new();
        let mut i: usize = 0;
        while i < len
            invariant
                i <= len,
                slots@.len() == i,
                forall|o: int| 0 <= o < i ==> (#[trigger] slots@[o]) is None,
            decreases len - i,
        {
            slots.push(None);
            i = i + 1;
        }
        Graph { nodes: Vec::new(), slots }
    }

    /// The node materialized at body offset `offset`, if any.
    pub fn node_at(&self, offset: u32) -> (r: Option<usize>)
        ensures
            (offset as int) < self.slots@.len() ==> r == self.slots@[offset as int],
            (offset as int) >= self.slots@.len() ==> r is None,
    {
        if (offset as usize) < self.slots.len() {
            self.slots[offset as usize]
        } else {
            None
        }
    }

    /// Materializes the record of kind `k` at body offset `offset`, with
    /// everything its pointer fields reach, and returns its handle; 0 is no record.
    pub fn resolve(&mut self, body: &Vec<u8>, offset: u32, k: Kind) -> (r: Result<
        Option<usize>,
        DatError,
    >)
        requires
            old(self).wf(body@),
        ensures
            resolved(*old(self), *final(self), body@, offset, k, r),
            forall|s: Set<(u32, Kind)>|
                #[trigger] closed(body@, s) && covers(*old(self), s) && (offset == 0 || s.contains(
                    (offset, k),
                )) ==> r is Ok && covers(*final(self), s),
        decreases free_count(old(self).slots@), 0nat,
    {
        if offset == 0 {
            return Ok(None);
        }
        let n = body.len();
        if offset as usize >= n {
            return Err(DatError::OffsetOutOfRange);
        }
        if let Some(i) = self.slots[offset as usize] {
            return Ok(Some(i));
        }
        let size = record_size(k);
        if offset as u64 + size as u64 > n as u64 {
            return Err(DatError::OffsetOutOfRange);
        }
        let ghost g0 = *self;
        let idx = self.begin(body, offset, k);
        let ghost g1 = *self;
        let vals = match self.read_fields(body, offset, k) {
            Ok(v) => v,
            Err(e) => {
                return Err(e);
            },
        };
        let ghost g2 = *self;
        self.finish(body, idx, vals);
        proof {
            lemma_close(g0, g1, g2, *self, idx as int);
            assert forall|s: Set<(u32, Kind)>|
                #[trigger] closed(body@, s) && covers(g0, s) && s.contains((offset, k)) implies covers(
                *self,
                s,
            ) by {
                assert(covers(g1, s)) by {
                    assert forall|q: int| 0 <= q < g1.nodes@.len() implies s.contains(
                        ((#[trigger] g1.nodes@[q]).offset, g1.nodes@[q].kind),
                    ) by {
                        if q < idx {
                            assert(g1.nodes@[q] == g0.nodes@[q]);
                        }
                    }
                }
                assert forall|q: int| 0 <= q < self.nodes@.len() implies s.contains(
                    ((#[trigger] self.nodes@[q]).offset, self.nodes@[q].kind),
                ) by {
                    if q != idx {
                        assert(self.nodes@[q] == g2.nodes@[q]);
                    }
                }
            }
        }
        Ok(Some(idx))
    }

    /// Adds an in-progress node for the record at `offset`, so that a field
    /// that points back at it finds it.
    fn begin(&mut self, body: &Vec<u8>, offset: u32, k: Kind) -> (idx: usize)
        requires
            old(self).wf(body@),
            0 < offset < body@.len(),
            offset + size_of(k) <= body@.len(),
            old(self).slots@[offset as int] is None,
        ensures
            final(self).wf(body@),
            idx == old(self).nodes@.len(),
            final(self).nodes@.len() == idx + 1,
            forall|j: int| 0 <= j < idx ==> final(self).nodes@[j] == #[trigger] old(self).nodes@[j],
            final(self).nodes@[idx as int].kind == k,
            final(self).nodes@[idx as int].offset == offset,
            final(self).slots@ == old(self).slots@.update(offset as int, Some(idx)),
            free_count(final(self).slots@) < free_count(old(self).slots@),
    {
        let ghost g0 = *self;
        let idx = self.nodes.len();
        self.nodes.push(Node { kind: k, offset, values: Vec::new(), done: false });
        self.slots.set(offset as usize, Some(idx));
        proof {
            lemma_free_fill(g0.slots@, offset as int, idx);
            assert forall|i: int|
                0 <= i < self.nodes@.len() && (#[trigger] self.nodes@[i]).done implies fields_ok(
                body@,
                self.nodes@[i],
                self.nodes@,
            ) by {
                assert(i < idx);
                assert(self.nodes@[i] == g0.nodes@[i]);
                lemma_fields_stable(body@, self.nodes@[i], g0.nodes@, self.nodes@);
            }
        }
        idx
    }

    /// Reads every field of the record of kind `k` at `offset`.
    #[verifier::rlimit(40)]
    fn read_fields(&mut self, body: &Vec<u8>, offset: u32, k: Kind) -> (r: Result<
        Vec<Value>,
        DatError,
    >)
        requires
            old(self).wf(body@),
            offset + size_of(k) <= body@.len(),
        ensures
            r is Ok ==> {
                &&& final(self).wf(body@)
                &&& extends(*old(self), *final(self))
                &&& fields_ok(
                    body@,
                    Node { kind: k, offset, values: r->Ok_0, done: true },
                    final(self).nodes@,
                )
            },
            r is Err ==> r == Err::<Vec<Value>, DatError>(DatError::OffsetOutOfRange),
            forall|s: Set<(u32, Kind)>|
                #[trigger] closed(body@, s) && covers(*old(self), s) && s.contains((offset, k)) ==> r is Ok
                    && covers(*final(self), s),
        decreases free_count(old(self).slots@), 2nat,
    {
        let ghost g1 = *self;
        let n = body.len();
        let fs = fields_of(k);
        let mut vals: Vec<Value> = Vec::new();
        let mut pos: usize = offset as usize;
        let mut i: usize = 0;
        while i < fs.len()
            invariant
                self.wf(body@),
                fs@ == layout(k),
                i <= fs@.len(),
                vals@.len() == i,
                pos == offset + span(fs@.take(i as int)),
                offset + span(fs@) <= body@.len(),
                n == body@.len(),
                g1 == *old(self),
                extends(g1, *self),
                free_count(self.slots@) <= free_count(g1.slots@),
                forall|s: Set<(u32, Kind)>|
                    #[trigger] closed(body@, s) && covers(g1, s) && s.contains((offset, k)) ==> covers(
                        *self,
                        s,
                    ),
                forall|j: int|
                    0 <= j < i ==> value_ok(
                        body@,
                        offset + span(fs@.take(j)),
                        #[trigger] fs@[j],
                        vals@[j],
                        self.nodes@,
                    ),
            decreases fs@.len() - i,
        {
            let s = fs[i];
            proof {
                lemma_span_prefix(fs@, i as int);
                assert(fs@.take(i as int + 1).drop_last() =~= fs@.take(i as int));
            }
            let ghost before = *self;
            assert(free_count(self.slots@) <= free_count(old(self).slots@));
            assert forall|s: Set<(u32, Kind)>|
                #[trigger] closed(body@, s) && covers(g1, s) && s.contains((offset, k)) implies field_in(
                body@,
                s,
                pos as int,
                fs@[i as int],
            ) by {
                assert(field_j_in(body@, s, offset, k, i as int));
            }
            let v = match self.read_field(body, pos, s) {
                Ok(v) => v,
                Err(e) => {
                    return Err(e);
                },
            };
            proof {
                lemma_extends_trans(g1, before, *self);
                lemma_free_mono(before.slots@, self.slots@);
                assert forall|j: int| 0 <= j < i implies value_ok(
                    body@,
                    offset + span(fs@.take(j)),
                    #[trigger] fs@[j],
                    vals@[j],
                    self.nodes@,
                ) by {
                    lemma_value_stable(
                        body@,
                        offset + span(fs@.take(j)),
                        fs@[j],
                        vals@[j],
                        before.nodes@,
                        self.nodes@,
                    );
                }
            }
            vals.push(v);
            pos = pos + shape_step(s);
            i = i + 1;
        }
        proof {
            assert(fs@.take(i as int) =~= fs@);
        }
        Ok(vals)
    }

    /// Reads the field of shape `s` at body offset `pos`, materializing the
    /// record it points at, if it is a pointer field.
    fn read_field(&mut self, body: &Vec<u8>, pos: usize, s: Shape) -> (r: Result<Value, DatError>)
        requires
            old(self).wf(body@),
            pos + width(s) <= body@.len(),
        ensures
            r is Ok ==> final(self).wf(body@) && extends(*old(self), *final(self)) && value_ok(
                body@,
                pos as int,
                s,
                r->Ok_0,
                final(self).nodes@,
            ),
            r is Ok ==> free_count(final(self).slots@) <= free_count(old(self).slots@),
            r is Err ==> r == Err::<Value, DatError>(DatError::OffsetOutOfRange),
            forall|t: Set<(u32, Kind)>|
                #[trigger] closed(body@, t) && covers(*old(self), t) && field_in(body@, t, pos as int, s)
                    ==> r is Ok && covers(*final(self), t),
        decreases free_count(old(self).slots@), 1nat,
    {
        reveal(value_ok);
        match s {
            Shape::Byte => Ok(Value::Num(body[pos] as u32)),
            Shape::Half => Ok(Value::Num(read_u16(body, pos) as u32)),
            Shape::Word => Ok(Value::Num(read_u32(body, pos))),
            Shape::Raw => Ok(Value::Raw(read_u32(body, pos))),
            Shape::Ptr(ck) => {
                let raw = read_u32(body, pos);
                let ghost before = *self;
                match self.resolve(body, raw, ck) {
                    Ok(t) => {
                        proof {
                            lemma_free_mono(before.slots@, self.slots@);
                        }
                        Ok(Value::Link(raw, t))
                    },
                    Err(e) => Err(e),
                }
            },
        }
    }

    /// Stores the values of the in-progress node `idx` and marks it complete.
    fn finish(&mut self, body: &Vec<u8>, idx: usize, vals: Vec<Value>)
        requires
            old(self).wf(body@),
            idx < old(self).nodes@.len(),
            fields_ok(
                body@,
                Node {
                    kind: old(self).nodes@[idx as int].kind,
                    offset: old(self).nodes@[idx as int].offset,
                    values: vals,
                    done: true,
                },
                old(self).nodes@,
            ),
        ensures
            final(self).wf(body@),
            final(self).slots@ == old(self).slots@,
            final(self).nodes@.len() == old(self).nodes@.len(),
            forall|j: int|
                0 <= j < old(self).nodes@.len() && j != idx ==> final(self).nodes@[j]
                    == #[trigger] old(self).nodes@[j],
            final(self).nodes@[idx as int].done,
            final(self).nodes@[idx as int].kind == old(self).nodes@[idx as int].kind,
            final(self).nodes@[idx as int].offset == old(self).nodes@[idx as int].offset,
    {
        let ghost g2 = *self;
        let k = self.nodes[idx].kind;
        let offset = self.nodes[idx].offset;
        let ghost nn = Node { kind: k, offset, values: vals, done: true };
        self.nodes.set(idx, Node { kind: k, offset, values: vals, done: true });
        proof {
            assert forall|j: int| 0 <= j < g2.nodes@.len() implies (#[trigger] self.nodes@[j]).offset
                == g2.nodes@[j].offset by {}
            assert forall|j: int|
                0 <= j < self.nodes@.len() && (#[trigger] self.nodes@[j]).done implies fields_ok(
                body@,
                self.nodes@[j],
                self.nodes@,
            ) by {
                if j == idx {
                    lemma_fields_stable(body@, nn, g2.nodes@, self.nodes@);
                } else {
                    lemma_fields_stable(body@, self.nodes@[j], g2.nodes@, self.nodes@);
                }
            }
        }
    }
}

proof fn lemma_close(g0: Graph, g1: Graph, g2: Graph, g3: Graph, idx: int)
    requires
        idx == g0.nodes@.len(),
        g1.nodes@.len() == idx + 1,
        forall|j: int| 0 <= j < idx ==> g1.nodes@[j] == #[trigger] g0.nodes@[j],
        g1.slots@.len() == g0.slots@.len(),
        forall|o: int|
            0 <= o < g0.slots@.len() && (#[trigger] g0.slots@[o]) is Some ==> g1.slots@[o]
                == g0.slots@[o],
        extends(g1, g2),
        g3.slots@ == g2.slots@,
        g3.nodes@.len() == g2.nodes@.len(),
        forall|j: int|
            0 <= j < g2.nodes@.len() && j != idx ==> g3.nodes@[j] == #[trigger] g2.nodes@[j],
        g3.nodes@[idx].done,
    ensures
        extends(g0, g3),
{
    assert forall|j: int| 0 <= j < g0.nodes@.len() implies g3.nodes@[j] == #[trigger] g0.nodes@[j] by {
        assert(g2.nodes@[j] == g1.nodes@[j]);
    }
    assert forall|j: int| g0.nodes@.len() <= j < g3.nodes@.len() implies (
    #[trigger] g3.nodes@[j]).done by {
        if j != idx {
            assert(g3.nodes@[j] == g2.nodes@[j]);
        }
    }
    assert forall|o: int|
        0 <= o < g0.slots@.len() && (#[trigger] g0.slots@[o]) is Some implies g3.slots@[o]
            == g0.slots@[o] by {
        assert(g1.slots@[o] == g0.slots@[o]);
    }
}

/// Offset 0 is no record: resolving it gives absence and leaves the graph as it was.
pub proof fn lemma_zero_offset_absent(
    a: Graph,
    b: Graph,
    body: Seq<u8>,
    k: Kind,
    r: Result<Option<usize>, DatError>,
)
    requires
        resolved(a, b, body, 0, k, r),
    ensures
        r == Ok::<Option<usize>, DatError>(None),
        b == a,
{
}

/// A pointer field that holds 0 has no target node.
pub proof fn lemma_zero_field_absent(g: Graph, body: Seq<u8>, i: int, j: int, t: Option<usize>)
    requires
        g.wf(body),
        0 <= i < g.nodes@.len(),
        g.nodes@[i].done,
        0 <= j < g.nodes@[i].values@.len(),
        g.nodes@[i].values@[j] == Value::Link(0, t),
    ensures
        t is None,
{
    reveal(value_ok);
    let l = layout(g.nodes@[i].kind);
    assert(value_ok(body, g.nodes@[i].offset + span(l.take(j)), l[j], g.nodes@[i].values@[j], g.nodes@));
}

/// Resolving an offset a second time in the same pass, with any kind, gives
/// the very node the first call gave and materializes nothing new.
pub proof fn lemma_resolve_shared(
    g0: Graph,
    g1: Graph,
    g2: Graph,
    body: Seq<u8>,
    offset: u32,
    k1: Kind,
    k2: Kind,
    r1: Result<Option<usize>, DatError>,
    r2: Result<Option<usize>, DatError>,
)
    requires
        g0.wf(body),
        resolved(g0, g1, body, offset, k1, r1),
        r1 is Ok,
        resolved(g1, g2, body, offset, k2, r2),
    ensures
        r2 == r1,
        g2 == g1,
{
}

/// A pointer field that holds the offset of its own record links back to
/// that record's node: no second node is made for it.
pub proof fn lemma_self_link(g: Graph, body: Seq<u8>, i: usize, j: int, t: usize)
    requires
        g.wf(body),
        i < g.nodes@.len(),
        g.nodes@[i as int].done,
        0 <= j < g.nodes@[i as int].values@.len(),
        g.nodes@[i as int].values@[j] == Value::Link(g.nodes@[i as int].offset, Some(t)),
    ensures
        t == i,
{
    let n = g.nodes@[i as int];
    let l = layout(n.kind);
    assert(fields_ok(body, n, g.nodes@));
    assert(value_ok(body, n.offset + span(l.take(j)), l[j], n.values@[j], g.nodes@));
    lemma_link_target(body, n.offset + span(l.take(j)), l[j], n.values@[j], g.nodes@);
    assert(g.nodes@[t as int].offset == n.offset);
    assert(g.slots@[n.offset as int] == Some(i));
    assert(g.slots@[g.nodes@[t as int].offset as int] == Some(t));
}

proof fn lemma_link_target(body: Seq<u8>, at: int, s: Shape, v: Value, nodes: Seq<Node>)
    requires
        value_ok(body, at, s, v, nodes),
        v matches Value::Link(raw, t) && raw != 0,
    ensures
        v->Link_1 is Some,
        v->Link_1.unwrap() < nodes.len(),
        nodes[v->Link_1.unwrap() as int].offset == v->Link_0,
{
    reveal(value_ok);
}

fn shape_step(s: Shape) -> (r: usize)
    ensures
        r == width(s),
{
    match s {
        Shape::Byte => 1,
        Shape::Half => 2,
        _ => 4,
    }
}

proof fn lemma_span_prefix(s: Seq<Shape>, i: int)
    requires
        0 <= i < s.len(),
    ensures
        span(s.take(i)) + width(s[i]) <= span(s),
    decreases s.len(),
{
    if i == s.len() - 1 {
        assert(s.drop_last() =~= s.take(i));
    } else {
        assert(s.drop_last().take(i) =~= s.take(i));
        lemma_span_prefix(s.drop_last(), i);
    }
}

proof fn lemma_free_fill(s: Seq<Option<usize>>, o: int, x: usize)
    requires
        0 <= o < s.len(),
        s[o] is None,
    ensures
        free_count(s.update(o, Some(x))) + 1 == free_count(s),
    decreases s.len(),
{
    let t = s.update(o, Some(x));
    if o == s.len() - 1 {
        assert(t.drop_last() =~= s.drop_last());
    } else {
        assert(t.drop_last() =~= s.drop_last().update(o, Some(x)));
        lemma_free_fill(s.drop_last(), o, x);
    }
}

proof fn lemma_free_mono(a: Seq<Option<usize>>, b: Seq<Option<usize>>)
    requires
        a.len() == b.len(),
        forall|o: int| 0 <= o < a.len() && (#[trigger] a[o]) is Some ==> b[o] == a[o],
    ensures
        free_count(b) <= free_count(a),
    decreases a.len(),
{
    if a.len() > 0 {
        lemma_free_mono(a.drop_last(), b.drop_last());
    }
}

proof fn lemma_extends_trans(a: Graph, b: Graph, c: Graph)
    requires
        extends(a, b),
        extends(b, c),
    ensures
        extends(a, c),
{
    assert forall|j: int| a.nodes@.len() <= j < c.nodes@.len() implies (#[trigger] c.nodes@[j]).done by {
        if j < b.nodes@.len() {
            assert(c.nodes@[j] == b.nodes@[j]);
        }
    }
}

proof fn lemma_value_stable(body: Seq<u8>, at: int, s: Shape, v: Value, a: Seq<Node>, b: Seq<Node>)
    requires
        value_ok(body, at, s, v, a),
        b.len() >= a.len(),
        forall|j: int| 0 <= j < a.len() ==> (#[trigger] b[j]).offset == a[j].offset,
    ensures
        value_ok(body, at, s, v, b),
{
    reveal(value_ok);
    if let Value::Link(raw, t) = v {
        if raw != 0 {
            assert(b[t.unwrap() as int].offset == a[t.unwrap() as int].offset);
        }
    }
}

proof fn lemma_fields_stable(body: Seq<u8>, n: Node, a: Seq<Node>, b: Seq<Node>)
    requires
        fields_ok(body, n, a),
        b.len() >= a.len(),
        forall|j: int| 0 <= j < a.len() ==> (#[trigger] b[j]).offset == a[j].offset,
    ensures
        fields_ok(body, n, b),
{
    let l = layout(n.kind);
    assert forall|i: int| 0 <= i < l.len() implies value_ok(
        body,
        n.offset + span(l.take(i)),
        #[trigger] l[i],
        n.values@[i],
        b,
    ) by {
        lemma_value_stable(body, n.offset + span(l.take(i)), l[i], n.values@[i], a, b);
    }
}

} // verus!
