//! The path confinement guard.
//!
//! Both the source directory and the parent of the destination must resolve
//! to canonical paths that are equal to, or descendants of, the trusted root.
//! The check runs on canonical paths on purpose: canonicalizing first defeats
//! traversal through `..` segments or symlink indirection, which a check on
//! the raw strings would miss.

use vstd::prelude::*;

use crate::errors::{ExportError, PathRole};

verus! {

/// `path` is equal to `root` or a descendant of it, where both are canonical
/// absolute paths: no trailing separator (except for the root directory
/// itself), no `..` segments, no doubled separators. Under that shape this
/// matches a component-wise prefix test.
pub open spec fn is_within(path: Seq<char>, root: Seq<char>) -> bool {
    path == root || (root.len() < path.len() && path.subrange(0, root.len() as int) == root && (
    (root.len() > 0 && root.last() == '/') || path[root.len() as int] == '/'))
}

/// Component-wise containment of one canonical path in another.
pub fn path_is_within(path: &str, root: &str) -> (b: bool)
    ensures
        b == is_within(path@, root@),
{
    let n = path.unicode_len();
    let m = root.unicode_len();
    if m > n {
        return false;
    }
    let mut i: usize = 0;
    while i < m
        invariant
            i <= m <= n,
            n == path@.len(),
            m == root@.len(),
            forall|j: int| 0 <= j < i ==> path@[j] == root@[j],
        decreases m - i,
    {
        if path.get_char(i) != root.get_char(i) {
            proof {
                assert(path@.subrange(0, m as int)[i as int] != root@[i as int]);
            }
            return false;
        }
        i += 1;
    }
    if n == m {
        proof {
            assert(path@ =~= root@);
        }
        true
    } else if root.unicode_len() > 0 && root.get_char(m - 1) == '/' {
        proof {
            assert(path@.subrange(0, m as int) =~= root@);
        }
        true
    } else if path.get_char(m) == '/' {
        proof {
            assert(path@.subrange(0, m as int) =~= root@);
        }
        true
    } else {
        proof {
            assert(path@ != root@);
            assert(path@.subrange(0, m as int) =~= root@);
        }
        false
    }
}

/// Validates the resolved source path against the trusted root: it must have
/// resolved, lie within the root, and be a directory — failing in that order
/// with `InvalidPath`, `OutsideTrustedRoot` and `NotADirectory`. On success
/// the canonical source path is returned.
///
/// `source` carries the outcome of canonicalization: the canonical path on
/// success, the resolver's message on failure. `home` is the canonical
/// trusted root.
pub fn validate_source(
    source: &Result<String, String>,
    source_is_dir: bool,
    home: &String,
) -> (r: Result<String, ExportError>)
    ensures
        r is Ok <==> (source is Ok && is_within(source.unwrap()@, home@) && source_is_dir),
        r is Ok ==> r.unwrap()@ == source.unwrap()@,
        source is Err ==> (r matches Err(ExportError::InvalidPath {
            role: PathRole::Source,
            detail,
        }) && detail@ == source.unwrap_err()@),
        source is Ok && !is_within(source.unwrap()@, home@) ==> r matches Err(
            ExportError::OutsideTrustedRoot { role: PathRole::Source },
        ),
        source is Ok && is_within(source.unwrap()@, home@) && !source_is_dir ==> r matches Err(
            ExportError::NotADirectory,
        ),
{
    let canonical_source = match source {
        Ok(p) => p,
        Err(m) => {
            return Err(ExportError::InvalidPath { role: PathRole::Source, detail: m.clone() });
        },
    };
    if !path_is_within(canonical_source.as_str(), home.as_str()) {
        return Err(ExportError::OutsideTrustedRoot { role: PathRole::Source });
    }
    if !source_is_dir {
        return Err(ExportError::NotADirectory);
    }
    Ok(canonical_source.clone())
}

/// Validates the parent of the destination against the trusted root: the
/// parent must have resolved (`InvalidPath` otherwise) and lie within the
/// root (`OutsideTrustedRoot` otherwise). On success the destination itself
/// is returned as supplied — not canonicalized, since the file need not
/// exist yet; it is used verbatim for creation.
///
/// `dest_parent` carries the outcome of canonicalizing the parent directory
/// of `destination`.
pub fn validate_destination_parent(
    destination: &String,
    dest_parent: &Result<String, String>,
    home: &String,
) -> (r: Result<String, ExportError>)
    ensures
        r is Ok <==> (dest_parent is Ok && is_within(dest_parent.unwrap()@, home@)),
        r is Ok ==> r.unwrap()@ == destination@,
        dest_parent is Err ==> (r matches Err(ExportError::InvalidPath {
            role: PathRole::Destination,
            detail,
        }) && detail@ == dest_parent.unwrap_err()@),
        dest_parent is Ok && !is_within(dest_parent.unwrap()@, home@) ==> r matches Err(
            ExportError::OutsideTrustedRoot { role: PathRole::Destination },
        ),
{
    let canonical_parent = match dest_parent {
        Ok(p) => p,
        Err(m) => {
            return Err(
                ExportError::InvalidPath { role: PathRole::Destination, detail: m.clone() },
            );
        },
    };
    if !path_is_within(canonical_parent.as_str(), home.as_str()) {
        return Err(ExportError::OutsideTrustedRoot { role: PathRole::Destination });
    }
    Ok(destination.clone())
}

/// Validates both caller-supplied paths, source first, as one export does:
/// the first failure is the export's error, and only when both pass may any
/// enumeration begin. On success the canonical source path is returned.
pub fn validate_paths(
    home: &String,
    source: &Result<String, String>,
    source_is_dir: bool,
    destination: &String,
    dest_parent: &Result<String, String>,
) -> (r: Result<String, ExportError>)
    ensures
        r is Ok <==> (source is Ok && is_within(source.unwrap()@, home@) && source_is_dir
            && dest_parent is Ok && is_within(dest_parent.unwrap()@, home@)),
        r is Ok ==> r.unwrap()@ == source.unwrap()@,
        source is Err ==> (r matches Err(ExportError::InvalidPath {
            role: PathRole::Source,
            detail,
        }) && detail@ == source.unwrap_err()@),
        source is Ok && !is_within(source.unwrap()@, home@) ==> r matches Err(
            ExportError::OutsideTrustedRoot { role: PathRole::Source },
        ),
        source is Ok && is_within(source.unwrap()@, home@) && !source_is_dir ==> r matches Err(
            ExportError::NotADirectory,
        ),
        source is Ok && is_within(source.unwrap()@, home@) && source_is_dir && dest_parent is Err
            ==> (r matches Err(ExportError::InvalidPath { role: PathRole::Destination, detail })
            && detail@ == dest_parent.unwrap_err()@),
        source is Ok && is_within(source.unwrap()@, home@) && source_is_dir && dest_parent is Ok
            && !is_within(dest_parent.unwrap()@, home@) ==> r matches Err(
            ExportError::OutsideTrustedRoot { role: PathRole::Destination },
        ),
{
    let canonical_source = match validate_source(source, source_is_dir, home) {
        Ok(p) => p,
        Err(e) => {
            return Err(e);
        },
    };
    match validate_destination_parent(destination, dest_parent, home) {
        Ok(_) => (),
        Err(e) => {
            return Err(e);
        },
    }
    Ok(canonical_source)
}

} // verus!
