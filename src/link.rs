//! Matching the external references of a set of decoded files to their roots.
use vstd::prelude::*;
use crate::error::DatError;
use crate::file::DatFile;

verus! {

/// Where an external reference was found: a root of one of the files.
#[derive(Debug, Clone, Copy, PartialEq, Eq, Structural)]
pub struct Target {
    /// Index of the file that holds the root.
    pub file: usize,
    /// Index of the root in that file.
    pub root: usize,
    /// The root's node in that file's graph, if it was walked.
    pub node: Option<usize>,
}

/// Whether root `r` of file `g` exists and is named `name`.
pub open spec fn root_named(files: Seq<DatFile>, g: int, r: int, name: Seq<u8>) -> bool {
    &&& 0 <= g < files.len()
    &&& 0 <= r < files[g].root_names@.len()
    &&& files[g].root_names@[r]@ == name
}

/// Whether some file has a root named `name`.
pub open spec fn has_root(files: Seq<DatFile>, name: Seq<u8>) -> bool {
    exists|g: int, r: int| #[trigger] root_named(files, g, r, name)
}

/// The name of external reference `x` of file `f`.
pub open spec fn xref_name(files: Seq<DatFile>, f: int, x: int) -> Seq<u8> {
    files[f].xref_names@[x]@
}

/// Whether every external reference of every file names a root of some file.
pub open spec fn all_resolved(files: Seq<DatFile>) -> bool {
    forall|f: int, x: int|
        0 <= f < files.len() && 0 <= x < files[f].xref_names@.len() ==> has_root(
            files,
            #[trigger] xref_name(files, f, x),
        )
}

/// Whether `t` is a match for external reference `x` of file `f`, or none where no root matches.
pub open spec fn link_ok(files: Seq<DatFile>, f: int, x: int, t: Option<Target>) -> bool {
    match t {
        Some(t) => {
            &&& root_named(files, t.file as int, t.root as int, xref_name(files, f, x))
            &&& t.root < files[t.file as int].root_nodes@.len() ==> t.node
                == files[t.file as int].root_nodes@[t.root as int]
        },
        None => !has_root(files, xref_name(files, f, x)),
    }
}

/// Compares two byte strings.
fn same_bytes(a: &Vec<u8>, b: &Vec<u8>) -> (r: bool)
    ensures
        r == (a@ == b@),
{
    if a.len() != b.len() {
        return false;
    }
    let mut i: usize = 0;
    while i < a.len()
        invariant
            a@.len() == b@.len(),
            i <= a@.len(),
            forall|j: int| 0 <= j < i ==> a@[j] == b@[j],
        decreases a@.len() - i,
    {
        if a[i] != b[i] {
            return false;
        }
        i = i + 1;
    }
    assert(a@ =~= b@);
    true
}

/// Finds a root named `name` in any of the files.
pub fn find_root(files: &Vec<DatFile>, name: &Vec<u8>) -> (r: Option<Target>)
    ensures
        r is None <==> !has_root(files@, name@),
        r is Some ==> {
            let t = r.unwrap();
            &&& root_named(files@, t.file as int, t.root as int, name@)
            &&& t.root < files@[t.file as int].root_nodes@.len() ==> t.node
                == files@[t.file as int].root_nodes@[t.root as int]
        },
{
    let mut g: usize = 0;
    while g < files.len()
        invariant
            g <= files@.len(),
            forall|gg: int, rr: int| 0 <= gg < g ==> !#[trigger] root_named(files@, gg, rr, name@),
        decreases files@.len() - g,
    {
        let mut k: usize = 0;
        while k < files[g].root_names.len()
            invariant
                g < files@.len(),
                k <= files@[g as int].root_names@.len(),
                forall|gg: int, rr: int| 0 <= gg < g ==> !#[trigger] root_named(files@, gg, rr, name@),
                forall|rr: int| 0 <= rr < k ==> !#[trigger] root_named(files@, g as int, rr, name@),
            decreases files@[g as int].root_names@.len() - k,
        {
            if same_bytes(&files[g].root_names[k], name) {
                let node = if k < files[g].root_nodes.len() {
                    files[g].root_nodes[k]
                } else {
                    None
                };
                assert(root_named(files@, g as int, k as int, name@));
                return Some(Target { file: g, root: k, node });
            }
            k = k + 1;
        }
        g = g + 1;
    }
    None
}

/// Matches each external reference of each file to a root of the same name
/// in any of the files. An unmatched reference fails the whole link unless
/// `lenient`, in which case it is left without a target.
pub fn link_files(files: &Vec<DatFile>, lenient: bool) -> (r: Result<
    Vec<Vec<Option<Target>>>,
    DatError,
>)
    ensures
        r is Ok <==> (lenient || all_resolved(files@)),
        r is Err ==> r->Err_0 == DatError::UnresolvedExternalReference,
        r is Ok ==> {
            let links = r->Ok_0;
            &&& links@.len() == files@.len()
            &&& forall|f: int|
                0 <= f < files@.len() ==> (#[trigger] links@[f])@.len()
                    == files@[f].xref_names@.len()
            &&& forall|f: int, x: int|
                0 <= f < files@.len() && 0 <= x < files@[f].xref_names@.len() ==> link_ok(
                    files@,
                    f,
                    x,
                    #[trigger] links@[f]@[x],
                )
        },
{
    let mut links: Vec<Vec<Option<Target>>> = Vec::new();
    let mut f: usize = 0;
    while f < files.len()
        invariant
            f <= files@.len(),
            links@.len() == f,
            forall|ff: int|
                0 <= ff < f ==> (#[trigger] links@[ff])@.len() == files@[ff].xref_names@.len(),
            forall|ff: int, x: int|
                0 <= ff < f && 0 <= x < files@[ff].xref_names@.len() ==> link_ok(
                    files@,
                    ff,
                    x,
                    #[trigger] links@[ff]@[x],
                ),
            !lenient ==> forall|ff: int, x: int|
                0 <= ff < f && 0 <= x < files@[ff].xref_names@.len() ==> has_root(
                    files@,
                    #[trigger] xref_name(files@, ff, x),
                ),
        decreases files@.len() - f,
    {
        let mut row: Vec<Option<Target>> = Vec::new();
        let mut x: usize = 0;
        while x < files[f].xref_names.len()
            invariant
                f < files@.len(),
                x <= files@[f as int].xref_names@.len(),
                row@.len() == x,
                forall|xx: int| 0 <= xx < x ==> link_ok(files@, f as int, xx, #[trigger] row@[xx]),
                !lenient ==> forall|xx: int|
                    0 <= xx < x ==> has_root(files@, #[trigger] xref_name(files@, f as int, xx)),
            decreases files@[f as int].xref_names@.len() - x,
        {
            let t = find_root(files, &files[f].xref_names[x]);
            if t.is_none() && !lenient {
                assert(!all_resolved(files@)) by {
                    assert(!has_root(files@, xref_name(files@, f as int, x as int)));
                }
                return Err(DatError::UnresolvedExternalReference);
            }
            row.push(t);
            x = x + 1;
        }
        links.push(row);
        f = f + 1;
    }
    Ok(links)
}

/// Whether each file of `a` also occurs in `b`.
pub open spec fn covered(a: Seq<DatFile>, b: Seq<DatFile>) -> bool {
    forall|i: int| 0 <= i < a.len() ==> exists|j: int| 0 <= j < b.len() && #[trigger] a[i] == b[j]
}

/// Whether a link succeeds does not depend on the order in which the files
/// are given: two lists that hold the same files resolve all their external
/// references, or both fail to.
pub proof fn lemma_link_order_free(a: Seq<DatFile>, b: Seq<DatFile>)
    requires
        covered(a, b),
        covered(b, a),
    ensures
        all_resolved(a) == all_resolved(b),
{
    if all_resolved(a) {
        lemma_resolved_covered(a, b);
    }
    if all_resolved(b) {
        lemma_resolved_covered(b, a);
    }
}

proof fn lemma_resolved_covered(a: Seq<DatFile>, b: Seq<DatFile>)
    requires
        covered(b, a),
        covered(a, b),
        all_resolved(a),
    ensures
        all_resolved(b),
{
    assert forall|f: int, x: int|
        0 <= f < b.len() && 0 <= x < b[f].xref_names@.len() implies has_root(
        b,
        #[trigger] xref_name(b, f, x),
    ) by {
        let fa = choose|j: int| 0 <= j < a.len() && #[trigger] b[f] == a[j];
        assert(xref_name(a, fa, x) == xref_name(b, f, x));
        assert(has_root(a, xref_name(a, fa, x)));
        let (g, r) = choose|g: int, r: int| #[trigger] root_named(a, g, r, xref_name(a, fa, x));
        let gb = choose|j: int| 0 <= j < b.len() && #[trigger] a[g] == b[j];
        assert(root_named(b, gb, r, xref_name(b, f, x)));
    }
}

} // verus!
