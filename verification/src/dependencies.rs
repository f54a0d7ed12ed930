//! The dependencies of a project, and where the engine finds them.

use crate::building::SettingsError;
use crate::conf::{Dependencies, Dependency, DependencyKind, DependencyName};
use crate::dirs::RootDir;
use crate::text::{texts, to_chars};
use crate::typedir::{AsPath, PathBuf, SEPARATOR};
use vstd::prelude::*;
use vstd::string::StringExecFns;

verus! {

/// The directory of a dependency.
pub type DependencyPath = String;

/// The form in which a dependency is downloaded.
#[derive(Debug, Clone, Copy, PartialEq, Eq, Structural)]
pub enum DownloadFormat {
    Zip,
}

/// What was downloaded for a dependency.
#[derive(Debug)]
pub struct DependencyPayload {
    pub bytes: Vec<u8>,
    pub format: DownloadFormat,
}

/// A dependency together with what was downloaded for it.
#[derive(Debug)]
pub struct DependencyDownload<'a> {
    pub name: DependencyName<'a>,
    pub payload: DependencyPayload,
}

/// Where the dependency `dep` lies.
pub open spec fn path_of(dep: Dependency<'_>) -> Seq<char> {
    match dep.kind {
        DependencyKind::Path { path } => path@,
    }
}

/// Where the dependencies `deps` lie, in order.
pub open spec fn paths_of(deps: Seq<Dependency<'_>>) -> Seq<Seq<char>> {
    Seq::new(deps.len(), |i: int| path_of(deps[i]))
}

/// The place of the first of `deps` that is a project of this tool, which no
/// build can use yet.
pub open spec fn first_unsupported(deps: Seq<Dependency<'_>>) -> Option<int>
    decreases deps.len(),
{
    if deps.len() == 0 {
        None
    } else {
        match first_unsupported(deps.drop_last()) {
            Some(i) => Some(i),
            None => if deps.last().largo {
                Some(deps.len() - 1)
            } else {
                None
            },
        }
    }
}

/// The first unsupported dependency is unsupported, and none before it is.
pub proof fn lemma_first_unsupported(deps: Seq<Dependency<'_>>)
    ensures
        match first_unsupported(deps) {
            Some(i) => 0 <= i < deps.len() && deps[i].largo && forall|j: int|
                0 <= j < i ==> !(#[trigger] deps[j]).largo,
            None => forall|j: int| 0 <= j < deps.len() ==> !(#[trigger] deps[j]).largo,
        },
    decreases deps.len(),
{
    if deps.len() > 0 {
        lemma_first_unsupported(deps.drop_last());
        let shorter = deps.drop_last();
        assert forall|j: int| 0 <= j < shorter.len() implies shorter[j] == deps[j] by {}
        match first_unsupported(shorter) {
            Some(i) => {
                assert(shorter[i] == deps[i]);
                assert forall|j: int| 0 <= j < i implies !(#[trigger] deps[j]).largo by {
                    assert(shorter[j] == deps[j]);
                }
            },
            None => {
                assert forall|j: int| 0 <= j < deps.len() - 1 implies !(#[trigger] deps[j]).largo by {
                    assert(shorter[j] == deps[j]);
                }
            },
        }
    }
}

/// The directories of the dependencies, in the order of their names. Only
/// dependencies that are plain directories can be used: where one is a
/// project of this tool, the first such is reported.
pub fn get_dependency_paths(deps: &Dependencies) -> (out: Result<Vec<DependencyPath>, SettingsError>)
    ensures
        match out {
            Ok(paths) => first_unsupported(deps.values()) is None && texts(paths@) == paths_of(
                deps.values(),
            ),
            Err(err) => match first_unsupported(deps.values()) {
                Some(i) => err@ == crate::building::SettingsErrorView::UnsupportedDependency(
                    deps.names()[i],
                ),
                None => false,
            },
        },
{
    let mut paths: Vec<DependencyPath> = Vec::new();
    let n = deps.len();
    let mut i: usize = 0;
    assert(deps.values().take(0) =~= Seq::<Dependency>::empty());
    assert(texts(paths@) =~= paths_of(deps.values().take(0)));
    while i < n
        invariant
            i <= n,
            n == deps.values().len(),
            n == deps.names().len(),
            first_unsupported(deps.values().take(i as int)) is None,
            texts(paths@) == paths_of(deps.values().take(i as int)),
        decreases n - i,
    {
        let dep = deps.dependency_at(i);
        proof {
            assert(deps.values().take(i + 1).drop_last() =~= deps.values().take(i as int));
            assert(deps.values().take(i + 1).last() == deps.values()[i as int]);
        }
        if dep.largo {
            proof {
                lemma_unsupported_found(deps.values(), i as int);
            }
            let name = deps.name_at(i);
            return Err(SettingsError::UnsupportedDependency(String::from_str(name.as_str())));
        }
        let ghost before = paths@;
        match dep.kind {
            DependencyKind::Path { path } => {
                paths.push(String::from_str(path));
            },
        }
        proof {
            let longer = deps.values().take(i + 1);
            assert(texts(paths@) =~= texts(before).push(path_of(deps.values()[i as int])));
            assert forall|j: int| 0 <= j < i implies paths_of(longer)[j] == paths_of(
                deps.values().take(i as int),
            )[j] by {
                assert(longer[j] == deps.values().take(i as int)[j]);
            }
            assert(paths_of(longer)[i as int] == path_of(longer[i as int]));
            assert(texts(paths@) =~= paths_of(longer));
        }
        i += 1;
    }
    assert(deps.values().take(i as int) =~= deps.values());
    Ok(paths)
}

/// Where the first unsupported dependency of a list stands at place `i`, it
/// is the first of the whole list too.
proof fn lemma_unsupported_found(deps: Seq<Dependency<'_>>, i: int)
    requires
        0 <= i < deps.len(),
        first_unsupported(deps.take(i)) is None,
        deps[i].largo,
    ensures
        first_unsupported(deps) == Some(i),
    decreases deps.len() - i,
{
    assert(deps.take(i + 1).drop_last() =~= deps.take(i));
    assert(deps.take(i + 1).last() == deps[i]);
    assert(first_unsupported(deps.take(i + 1)) == Some(i));
    lemma_unsupported_kept(deps, i + 1, i);
}

/// A list whose beginning holds an unsupported dependency has the same first
/// one.
proof fn lemma_unsupported_kept(deps: Seq<Dependency<'_>>, n: int, i: int)
    requires
        0 <= n <= deps.len(),
        first_unsupported(deps.take(n)) == Some(i),
    ensures
        first_unsupported(deps) == Some(i),
    decreases deps.len() - n,
{
    if n == deps.len() {
        assert(deps.take(n) =~= deps);
    } else {
        assert(deps.take(n + 1).drop_last() =~= deps.take(n));
        lemma_unsupported_kept(deps, n + 1, i);
    }
}

/// The path `path` as seen from the directory `root`: itself if it starts at
/// the root of the file system, and else the path below `root`.
pub open spec fn resolved_path(root: Seq<char>, path: Seq<char>) -> Seq<char> {
    if path.len() > 0 && path[0] == SEPARATOR {
        path
    } else {
        root + seq![SEPARATOR] + path
    }
}

/// The paths `paths`, each as seen from the directory `root`.
pub open spec fn resolved_paths(root: Seq<char>, paths: Seq<Seq<char>>) -> Seq<Seq<char>> {
    Seq::new(paths.len(), |i: int| resolved_path(root, paths[i]))
}

/// The path `path` as seen from the directory `root`.
pub fn resolve_path(root: &str, path: &str) -> (out: DependencyPath)
    ensures
        out@ == resolved_path(root@, path@),
{
    let chars = to_chars(path);
    if chars.len() > 0 && chars[0] == SEPARATOR {
        String::from_str(path)
    } else {
        let mut out = String::from_str(root);
        out.push(SEPARATOR);
        out.append(path);
        assert(out@ =~= root@ + seq![SEPARATOR] + path@);
        out
    }
}

/// The directories of the dependencies as seen from the root of the project,
/// in the order of their names.
pub fn resolve_dependency_paths(root: &PathBuf<RootDir>, deps: &Dependencies) -> (out: Result<
    Vec<DependencyPath>,
    SettingsError,
>)
    ensures
        match out {
            Ok(paths) => first_unsupported(deps.values()) is None && texts(paths@)
                == resolved_paths(root@, paths_of(deps.values())),
            Err(err) => match first_unsupported(deps.values()) {
                Some(i) => err@ == crate::building::SettingsErrorView::UnsupportedDependency(
                    deps.names()[i],
                ),
                None => false,
            },
        },
{
    let given = get_dependency_paths(deps)?;
    let base = root.to_path_string();
    let mut paths: Vec<DependencyPath> = Vec::new();
    let mut i: usize = 0;
    let ghost wanted = resolved_paths(root@, texts(given@));
    assert(texts(paths@) =~= wanted.take(0));
    while i < given.len()
        invariant
            i <= given@.len(),
            base@ == root@,
            wanted == resolved_paths(root@, texts(given@)),
            texts(paths@) == wanted.take(i as int),
        decreases given@.len() - i,
    {
        let ghost before = paths@;
        paths.push(resolve_path(base.as_str(), given[i].as_str()));
        assert(texts(paths@) =~= texts(before).push(wanted[i as int]));
        assert(wanted.take(i + 1) =~= wanted.take(i as int).push(wanted[i as int]));
        i += 1;
    }
    assert(wanted.take(i as int) =~= wanted);
    Ok(paths)
}

} // verus!
