use vstd::prelude::*;

use crate::error::Error;
use crate::text::{chars_of, joined, push_owned, views};

verus! {

/// What a package declares under its `nested_workspace` metadata key.
#[derive(Clone, Debug)]
pub enum NestedMetadata {
    /// The key is absent: the package declares no nested roots.
    Absent,
    /// The key is present but does not hold a list of root paths; the
    /// message says why.
    Malformed(String),
    /// The declared roots, relative to the package's manifest directory.
    Roots(Vec<String>),
}

/// A package as the metadata query reports it.
#[derive(Clone, Debug)]
pub struct PackageRecord {
    pub name: String,
    pub manifest_path: String,
    pub metadata: NestedMetadata,
}

/// The parent directory of a path, as `std::path::Path::parent` gives it.
pub uninterp spec fn parent_of(path: Seq<char>) -> Option<Seq<char>>;

/// Relies on `std::path::Path::parent`: the path without its last component,
/// or `None` for a path that is empty or ends in a root. The input is UTF-8,
/// so the parent is too and converts without loss.
#[verifier::external_body]
fn path_parent(path: &str) -> (r: Option<String>)
    ensures
        match r {
            Some(d) => parent_of(path@) == Some(d@),
            None => parent_of(path@) is None,
        },
{
    std::path::Path::new(path).parent().map(|p| p.to_string_lossy().into_owned())
}

/// `rel` resolved against directory `dir`: an absolute `rel` stands as it
/// is; otherwise the two are joined by one `/`.
pub open spec fn join_path(dir: Seq<char>, rel: Seq<char>) -> Seq<char> {
    if rel.len() > 0 && rel[0] == '/' {
        rel
    } else if dir.len() == 0 {
        rel
    } else if dir.last() == '/' {
        dir + rel
    } else {
        dir + seq!['/'] + rel
    }
}

/// Each of `roots` resolved against `dir`, in order.
pub open spec fn resolved(dir: Seq<char>, roots: Seq<Seq<char>>) -> Seq<Seq<char>> {
    roots.map_values(|r: Seq<char>| join_path(dir, r))
}

/// The package's metadata can be read: it declares no roots, or declares a
/// list of them and its manifest has a directory.
pub open spec fn readable(p: PackageRecord) -> bool {
    match p.metadata {
        NestedMetadata::Absent => true,
        NestedMetadata::Malformed(_) => false,
        NestedMetadata::Roots(_) => parent_of(p.manifest_path@) is Some,
    }
}

/// The absolute nested roots that a readable package declares; `None` where
/// it declares none.
pub open spec fn package_roots(p: PackageRecord) -> Option<Seq<Seq<char>>> {
    match p.metadata {
        NestedMetadata::Roots(rs) => Some(
            resolved(parent_of(p.manifest_path@)->Some_0, views(rs@)),
        ),
        _ => None,
    }
}

/// The nested roots of all of `ps`, package after package, each package's
/// own in the order it declares them.
pub open spec fn all_roots(ps: Seq<PackageRecord>) -> Seq<Seq<char>>
    decreases ps.len(),
{
    if ps.len() == 0 {
        seq![]
    } else {
        let here = match package_roots(ps[0]) {
            Some(rs) => rs,
            None => seq![],
        };
        here + all_roots(ps.skip(1))
    }
}

/// The first of `ps` whose manifest is at `m`.
pub open spec fn find_manifest(ps: Seq<PackageRecord>, m: Seq<char>) -> Option<PackageRecord>
    decreases ps.len(),
{
    if ps.len() == 0 {
        None
    } else if ps[0].manifest_path@ == m {
        Some(ps[0])
    } else {
        find_manifest(ps.skip(1), m)
    }
}

/// `rel` resolved against directory `dir`; see `join_path`.
pub fn join(dir: &String, rel: &String) -> (r: String)
    ensures
        r@ == join_path(dir@, rel@),
{
    let rc = chars_of(rel.as_str());
    if rc.len() > 0 && rc[0] == '/' {
        return rel.clone();
    }
    let dc = chars_of(dir.as_str());
    if dc.len() == 0 {
        return rel.clone();
    }
    if dc[dc.len() - 1] == '/' {
        return joined(dir.as_str(), rel.as_str());
    }
    proof {
        reveal_strlit("/");
    }
    let with_slash = joined(dir.as_str(), "/");
    let r = joined(with_slash.as_str(), rel.as_str());
    assert(r@ =~= dir@ + seq!['/'] + rel@);
    r
}

/// The absolute nested roots that `package` declares: `None` where its
/// metadata has no `nested_workspace` key.
pub fn nested_workspace_roots_for_package(package: &PackageRecord) -> (r: Result<
    Option<Vec<String>>,
    Error,
>)
    ensures
        readable(*package) ==> r is Ok && match r->Ok_0 {
            Some(v) => package_roots(*package) == Some(views(v@)),
            None => package_roots(*package) is None,
        },
        !readable(*package) ==> r is Err && match package.metadata {
            NestedMetadata::Malformed(m) => r->Err_0 is MalformedMetadata
                && r->Err_0->MalformedMetadata_0 == m,
            _ => r->Err_0 is NoManifestDir && r->Err_0->NoManifestDir_0 == package.manifest_path,
        },
{
    let rel_roots = match &package.metadata {
        NestedMetadata::Absent => {
            return Ok(None);
        },
        NestedMetadata::Malformed(m) => {
            return Err(Error::MalformedMetadata(m.clone()));
        },
        NestedMetadata::Roots(rs) => rs,
    };
    let dir = match path_parent(package.manifest_path.as_str()) {
        Some(d) => d,
        None => {
            return Err(Error::NoManifestDir(package.manifest_path.clone()));
        },
    };
    let mut roots: Vec<String> = Vec::new();
    let mut i: usize = 0;
    while i < rel_roots.len()
        invariant
            i <= rel_roots.len(),
            views(roots@) == resolved(dir@, views(rel_roots@)).take(i as int),
        decreases rel_roots.len() - i,
    {
        let root = join(&dir, &rel_roots[i]);
        push_owned(&mut roots, root);
        assert(views(roots@) =~= resolved(dir@, views(rel_roots@)).take(i + 1));
        i = i + 1;
    }
    assert(resolved(dir@, views(rel_roots@)).take(i as int) =~= resolved(dir@, views(rel_roots@)));
    Ok(Some(roots))
}

/// The nested roots of the package whose manifest is at `manifest_path`,
/// which must declare some.
pub fn current_package_nested_workspace_roots(
    packages: &Vec<PackageRecord>,
    manifest_path: &String,
) -> (r: Result<Vec<String>, Error>)
    ensures
        match find_manifest(packages@, manifest_path@) {
            None => r is Err && r->Err_0 is PackageNotFound && r->Err_0->PackageNotFound_0
                == manifest_path,
            Some(p) => if !readable(p) {
                r is Err && (r->Err_0 is MalformedMetadata || r->Err_0 is NoManifestDir)
            } else {
                match package_roots(p) {
                    Some(rs) => r is Ok && views(r->Ok_0@) == rs,
                    None => r is Err && r->Err_0 is NoNestedWorkspaceMetadata
                        && r->Err_0->NoNestedWorkspaceMetadata_0 == manifest_path,
                }
            },
        },
{
    let mut i: usize = 0;
    assert(packages@.skip(0) =~= packages@);
    while i < packages.len()
        invariant
            i <= packages.len(),
            find_manifest(packages@, manifest_path@) == find_manifest(
                packages@.skip(i as int),
                manifest_path@,
            ),
        decreases packages.len() - i,
    {
        assert(packages@.skip(i as int)[0] == packages@[i as int]);
        assert(packages@.skip(i as int).skip(1) =~= packages@.skip(i + 1));
        if packages[i].manifest_path == *manifest_path {
            return match nested_workspace_roots_for_package(&packages[i]) {
                Ok(Some(roots)) => Ok(roots),
                Ok(None) => Err(Error::NoNestedWorkspaceMetadata(manifest_path.clone())),
                Err(e) => Err(e),
            };
        }
        i = i + 1;
    }
    Err(Error::PackageNotFound(manifest_path.clone()))
}

/// The nested roots of all of `packages`, package after package, each
/// package's own in the order it declares them. A package without nested
/// workspace metadata contributes none.
pub fn all_nested_workspace_roots(packages: &Vec<PackageRecord>) -> (r: Result<
    Vec<String>,
    Error,
>)
    ensures
        (forall|i: int| 0 <= i < packages.len() ==> readable(#[trigger] packages@[i])) ==> r is Ok
            && views(r->Ok_0@) == all_roots(packages@),
        (exists|i: int| 0 <= i < packages.len() && !readable(#[trigger] packages@[i])) ==> r is Err,
{
    let mut roots: Vec<String> = Vec::new();
    let mut i: usize = 0;
    assert(packages@.skip(0) =~= packages@);
    assert(views(roots@) + all_roots(packages@) =~= all_roots(packages@));
    while i < packages.len()
        invariant
            i <= packages.len(),
            forall|j: int| 0 <= j < i ==> readable(#[trigger] packages@[j]),
            views(roots@) + all_roots(packages@.skip(i as int)) == all_roots(packages@),
        decreases packages.len() - i,
    {
        assert(packages@.skip(i as int)[0] == packages@[i as int]);
        assert(packages@.skip(i as int).skip(1) =~= packages@.skip(i + 1));
        match nested_workspace_roots_for_package(&packages[i]) {
            Ok(Some(current)) => {
                let ghost before = views(roots@);
                let mut current = current;
                let ghost here = views(current@);
                roots.append(&mut current);
                assert(views(roots@) =~= before + here);
                assert(views(roots@) + all_roots(packages@.skip(i + 1)) =~= before + (here
                    + all_roots(packages@.skip(i + 1))));
            },
            Ok(None) => {
                assert(all_roots(packages@.skip(i as int)) =~= all_roots(packages@.skip(i + 1)));
            },
            Err(e) => {
                return Err(e);
            },
        }
        i = i + 1;
    }
    assert(packages@.skip(i as int) =~= seq![]);
    assert(views(roots@) + seq![] =~= views(roots@));
    Ok(roots)
}

/// Each package contributes its own roots, in the order it declares them,
/// wherever it stands among the packages: the roots of two lists of
/// packages one after the other are the roots of the first, then those of
/// the second. A package that declares none contributes nothing.
pub proof fn roots_of_packages_concatenate(ps: Seq<PackageRecord>, qs: Seq<PackageRecord>)
    ensures
        all_roots(ps + qs) == all_roots(ps) + all_roots(qs),
        forall|i: int|
            0 <= i < ps.len() && #[trigger] package_roots(ps[i]) is None ==> all_roots(
                ps.take(i) + ps.skip(i + 1),
            ) == all_roots(ps),
{
    lemma_concat(ps, qs);
    assert forall|i: int|
        0 <= i < ps.len() && #[trigger] package_roots(ps[i]) is None implies all_roots(
            ps.take(i) + ps.skip(i + 1),
        ) == all_roots(ps) by {
        let a = ps.take(i);
        let b = ps.skip(i + 1);
        let one = seq![ps[i]];
        assert(ps =~= a + (one + b));
        lemma_concat(a, one + b);
        lemma_concat(one, b);
        lemma_concat(a, b);
        assert(one.skip(1) =~= Seq::<PackageRecord>::empty());
        assert(one[0] == ps[i]);
        assert(all_roots(one.skip(1)) == Seq::<Seq<char>>::empty());
        assert(all_roots(one) =~= seq![]);
        assert(all_roots(one) + all_roots(b) =~= all_roots(b));
    }
}

/// The roots of two lists of packages one after the other.
proof fn lemma_concat(ps: Seq<PackageRecord>, qs: Seq<PackageRecord>)
    ensures
        all_roots(ps + qs) == all_roots(ps) + all_roots(qs),
    decreases ps.len(),
{
    if ps.len() == 0 {
        assert(ps + qs =~= qs);
        assert(all_roots(ps) + all_roots(qs) =~= all_roots(qs));
    } else {
        lemma_concat(ps.skip(1), qs);
        assert((ps + qs).skip(1) =~= ps.skip(1) + qs);
        assert((ps + qs)[0] == ps[0]);
        let here = match package_roots(ps[0]) {
            Some(rs) => rs,
            None => seq![],
        };
        assert(here + (all_roots(ps.skip(1)) + all_roots(qs)) =~= (here + all_roots(ps.skip(1)))
            + all_roots(qs));
    }
}

} // verus!
