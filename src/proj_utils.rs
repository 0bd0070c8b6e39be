//! The project store: one directory per project under the projects root.
//! The filesystem is authoritative; these functions decide, from what the
//! caller found on disk, what to create, delete or write.

use vstd::prelude::*;
use crate::consts::{join_path, join_spec};
use crate::text::{contains, has_sub, occurs_at, starts_with};

verus! {

/// Why a project operation failed.
pub enum ProjError {
    AlreadyExists,
    DoesNotExist,
    /// A bundle path that is absolute or climbs out of the project.
    EscapingPath(String),
    Io(String),
}

/// Text of an error, as the handlers report it.
pub open spec fn error_text(e: ProjError) -> Seq<char> {
    match e {
        ProjError::AlreadyExists => "Project already exists"@,
        ProjError::DoesNotExist => "Project does not exist"@,
        ProjError::EscapingPath(p) => "Path escapes the project: "@ + p@,
        ProjError::Io(m) => m@,
    }
}

impl ProjError {
    /// Text of the error, as the handlers report it.
    pub fn message(&self) -> (r: String)
        ensures
            r@ == error_text(*self),
    {
        match self {
            ProjError::AlreadyExists => String::from_str("Project already exists"),
            ProjError::DoesNotExist => String::from_str("Project does not exist"),
            ProjError::EscapingPath(p) => String::from_str("Path escapes the project: ").concat(
                p.as_str(),
            ),
            ProjError::Io(e) => String::from_str(e.as_str()),
        }
    }
}

/// The projects as a set of names.
pub open spec fn create_spec(projects: Set<Seq<char>>, name: Seq<char>) -> Option<Set<Seq<char>>> {
    if projects.contains(name) {
        None
    } else {
        Some(projects.insert(name))
    }
}

pub open spec fn delete_spec(projects: Set<Seq<char>>, name: Seq<char>) -> Option<Set<Seq<char>>> {
    if projects.contains(name) {
        Some(projects.remove(name))
    } else {
        None
    }
}

/// What creating a project takes on disk.
pub struct CreatePlan {
    /// The projects root is missing and must be created first.
    pub create_root: bool,
    /// The project directory to create.
    pub dir: String,
}

/// Plans the creation of project `name` under `root`: it fails with
/// `AlreadyExists` exactly when the project directory exists.
pub fn create_proj(root: &str, name: &str, root_exists: bool, proj_exists: bool) -> (r: Result<
    CreatePlan,
    ProjError,
>)
    ensures
        proj_exists <==> r is Err,
        r matches Err(e) ==> e == ProjError::AlreadyExists,
        r matches Ok(p) ==> p.create_root == !root_exists && p.dir@ == join_spec(root@, name@),
{
    if proj_exists {
        Err(ProjError::AlreadyExists)
    } else {
        Ok(CreatePlan { create_root: !root_exists, dir: join_path(root, name) })
    }
}

/// Plans the deletion of project `name` under `root`: the directory to
/// remove, or `DoesNotExist` exactly when it is absent.
pub fn delete_proj(root: &str, name: &str, proj_exists: bool) -> (r: Result<String, ProjError>)
    ensures
        !proj_exists <==> r is Err,
        r matches Err(e) ==> e == ProjError::DoesNotExist,
        r matches Ok(d) ==> d@ == join_spec(root@, name@),
{
    if !proj_exists {
        Err(ProjError::DoesNotExist)
    } else {
        Ok(join_path(root, name))
    }
}

/// Plans the emptying of a project, done as a deletion followed by a
/// creation: the directory to remove and then create again, or
/// `DoesNotExist` exactly when it is absent.
pub fn clear_proj(root: &str, name: &str, proj_exists: bool) -> (r: Result<String, ProjError>)
    ensures
        !proj_exists <==> r is Err,
        r matches Err(e) ==> e == ProjError::DoesNotExist,
        r matches Ok(d) ==> d@ == join_spec(root@, name@),
{
    delete_proj(root, name, proj_exists)
}

/// Creating a project that was absent and then deleting it leaves the set
/// of projects as it was.
pub proof fn lemma_create_then_delete(projects: Set<Seq<char>>, name: Seq<char>)
    requires
        !projects.contains(name),
    ensures
        create_spec(projects, name) is Some,
        delete_spec(create_spec(projects, name).unwrap(), name) == Some(projects),
{
    assert(projects.insert(name).remove(name) =~= projects);
}

/// A bundle path stays inside the project: it is not empty, does not start
/// with `/`, and has no `..` component.
pub open spec fn safe_rel_path(p: Seq<char>) -> bool {
    &&& p.len() > 0
    &&& p[0] != '/'
    &&& !has_sub("/"@ + p + "/"@, "/../"@)
}

/// Whether a bundle path stays inside the project.
pub fn is_safe_rel_path(p: &str) -> (r: bool)
    ensures
        r == safe_rel_path(p@),
{
    let n = p.unicode_len();
    if n == 0 {
        return false;
    }
    if p.get_char(0) == '/' {
        return false;
    }
    let framed = String::from_str("/").concat(p).concat("/");
    !contains(framed.as_str(), "/../")
}

/// Where a bundle entry lands on disk.
pub open spec fn landing(dir: Seq<char>, rel: Seq<char>) -> Seq<char> {
    join_spec(dir, rel)
}

/// The path of a file found under `dir`, relative to `dir`.
pub open spec fn relative_spec(dir: Seq<char>, full: Seq<char>) -> Option<Seq<char>> {
    let prefix = dir + "/"@;
    if occurs_at(full, prefix, 0) {
        Some(full.subrange(prefix.len() as int, full.len() as int))
    } else {
        None
    }
}

/// The files to write for a bundle ingested into `dir`: each entry's
/// contents at `dir/<path>`, in the bundle's order. A path that is not a
/// safe relative path refuses the whole bundle.
pub fn save_files_to_disk(files: &Vec<(String, Vec<u8>)>, output_dir: &str) -> (r: Result<
    Vec<(String, Vec<u8>)>,
    ProjError,
>)
    ensures
        r is Ok <==> forall|i: int| 0 <= i < files@.len() ==> safe_rel_path(files@[i].0@),
        r matches Ok(w) ==> w@.len() == files@.len() && forall|i: int|
            0 <= i < files@.len() ==> w@[i].0@ == landing(output_dir@, files@[i].0@) && w@[i].1@
                == files@[i].1@,
        r matches Err(e) ==> exists|i: int|
            0 <= i < files@.len() && !safe_rel_path(files@[i].0@) && e == ProjError::EscapingPath(
                files@[i].0,
            ),
{
    let mut out: Vec<(String, Vec<u8>)> = Vec::new();
    let mut i: usize = 0;
    while i < files.len()
        invariant
            i <= files@.len(),
            out@.len() == i,
            forall|k: int| 0 <= k < i ==> safe_rel_path(files@[k].0@),
            forall|k: int|
                0 <= k < i ==> out@[k].0@ == landing(output_dir@, files@[k].0@) && out@[k].1@
                    == files@[k].1@,
        decreases files@.len() - i,
    {
        let entry = &files[i];
        if !is_safe_rel_path(entry.0.as_str()) {
            return Err(ProjError::EscapingPath(entry.0.clone()));
        }
        out.push((join_path(output_dir, entry.0.as_str()), entry.1.clone()));
        i = i + 1;
    }
    Ok(out)
}

/// The bundle path of a file found at `full` while walking `dir`, or `None`
/// when `full` does not lie under `dir`.
pub fn relative_to(dir: &str, full: &str) -> (r: Option<String>)
    ensures
        match relative_spec(dir@, full@) {
            Some(p) => r matches Some(s) && s@ == p,
            None => r is None,
        },
{
    let prefix = String::from_str(dir).concat("/");
    if starts_with(full, prefix.as_str()) {
        let n = full.unicode_len();
        let m = prefix.as_str().unicode_len();
        Some(String::from_str(full.substring_char(m, n)))
    } else {
        None
    }
}

/// A bundle path written under the project directory is read back as the
/// same path, and two different paths land on different files: the bundle
/// that export returns after an ingest is the bundle that was ingested.
pub proof fn lemma_bundle_round_trip(dir: Seq<char>, rel: Seq<char>, other: Seq<char>)
    ensures
        relative_spec(dir, landing(dir, rel)) == Some(rel),
        landing(dir, rel) == landing(dir, other) ==> rel == other,
{
    let prefix = dir + "/"@;
    let full = landing(dir, rel);
    assert(full =~= prefix + rel);
    assert(full.subrange(0, prefix.len() as int) =~= prefix);
    assert(full.subrange(prefix.len() as int, full.len() as int) =~= rel);
    if landing(dir, rel) == landing(dir, other) {
        let full2 = landing(dir, other);
        assert(full2 =~= prefix + other);
        assert(rel =~= full.subrange(prefix.len() as int, full.len() as int));
        assert(other =~= full2.subrange(prefix.len() as int, full2.len() as int));
    }
}

/// The files that ingesting `bundle` into `dir` writes.
pub open spec fn written(dir: Seq<char>, bundle: Seq<(Seq<char>, Seq<u8>)>) -> Seq<(Seq<char>, Seq<u8>)> {
    bundle.map_values(|e: (Seq<char>, Seq<u8>)| (landing(dir, e.0), e.1))
}

/// The bundle that exporting `files` found under `dir` gives, when every
/// file lies under `dir`.
pub open spec fn exported(dir: Seq<char>, files: Seq<(Seq<char>, Seq<u8>)>) -> Seq<(Seq<char>, Seq<u8>)> {
    files.map_values(|e: (Seq<char>, Seq<u8>)| (relative_spec(dir, e.0).unwrap(), e.1))
}

/// Exporting what ingesting a bundle wrote gives back the bundle.
pub proof fn lemma_ingest_then_export(dir: Seq<char>, bundle: Seq<(Seq<char>, Seq<u8>)>)
    ensures
        exported(dir, written(dir, bundle)) == bundle,
{
    assert forall|i: int| 0 <= i < bundle.len() implies #[trigger] exported(
        dir,
        written(dir, bundle),
    )[i] == bundle[i] by {
        lemma_bundle_round_trip(dir, bundle[i].0, bundle[i].0);
    }
    assert(exported(dir, written(dir, bundle)) =~= bundle);
}

/// The bytes that the binary encoder writes for a list of names.
pub uninterp spec fn names_bytes(names: Seq<Seq<char>>) -> Seq<u8>;

/// Relies on `bincode::serialize` of a `Vec<String>`: the bytes depend on the
/// names alone. Encoding strings into a `Vec` has no failing path in
/// bincode 1 (no size limit, an infallible writer).
#[verifier::external_body]
fn encode_names(names: &Vec<String>) -> (r: Vec<u8>)
    ensures
        r@ == names_bytes(names@.map_values(|s: String| s@)),
{
    bincode::serialize(names).unwrap()
}

/// The body that lists the projects: the names, length-prefixed, in the
/// order given.
pub fn list_projects(names: &Vec<String>) -> (r: Vec<u8>)
    ensures
        r@ == names_bytes(names@.map_values(|s: String| s@)),
{
    encode_names(names)
}

} // verus!
