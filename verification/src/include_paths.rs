//! The directories searched for included files: the document's directory,
//! the root of the Unity or Unreal project above it, and the workspace
//! root, each with the folders where such projects keep shaders.
use vstd::prelude::*;
use crate::lists::strings_view;

verus! {

/// What the file system shows of one directory above the document: its
/// path, the paths of its `Assets`, `Packages`, `Library/PackageCache` and
/// `Shaders` folders, and which folders exist.
pub struct AncestorDir {
    pub path: String,
    pub assets: String,
    pub packages: String,
    pub package_cache: String,
    pub shaders: String,
    /// It has both an `Assets` and a `ProjectSettings` folder.
    pub unity_project: bool,
    /// It has a `Source` or a `Config` folder.
    pub unreal_project: bool,
    pub has_package_cache: bool,
    pub has_shaders: bool,
}

/// What an `AncestorDir` holds.
pub struct AncestorModel {
    pub path: Seq<char>,
    pub assets: Seq<char>,
    pub packages: Seq<char>,
    pub package_cache: Seq<char>,
    pub shaders: Seq<char>,
    pub unity_project: bool,
    pub unreal_project: bool,
    pub has_package_cache: bool,
    pub has_shaders: bool,
}

impl View for AncestorDir {
    type V = AncestorModel;

    open spec fn view(&self) -> AncestorModel {
        AncestorModel {
            path: self.path@,
            assets: self.assets@,
            packages: self.packages@,
            package_cache: self.package_cache@,
            shaders: self.shaders@,
            unity_project: self.unity_project,
            unreal_project: self.unreal_project,
            has_package_cache: self.has_package_cache,
            has_shaders: self.has_shaders,
        }
    }
}

/// What the file system shows of the workspace root: its path, the paths of
/// its `Assets`, `Packages` and `Library/PackageCache` folders, and which of
/// them exist.
pub struct WorkspaceDir {
    pub path: String,
    pub assets: String,
    pub packages: String,
    pub package_cache: String,
    pub has_assets: bool,
    pub has_packages: bool,
    pub has_package_cache: bool,
}

/// What a `WorkspaceDir` holds.
pub struct WorkspaceModel {
    pub path: Seq<char>,
    pub assets: Seq<char>,
    pub packages: Seq<char>,
    pub package_cache: Seq<char>,
    pub has_assets: bool,
    pub has_packages: bool,
    pub has_package_cache: bool,
}

impl View for WorkspaceDir {
    type V = WorkspaceModel;

    open spec fn view(&self) -> WorkspaceModel {
        WorkspaceModel {
            path: self.path@,
            assets: self.assets@,
            packages: self.packages@,
            package_cache: self.package_cache@,
            has_assets: self.has_assets,
            has_packages: self.has_packages,
            has_package_cache: self.has_package_cache,
        }
    }
}

pub open spec fn ancestors_view(v: Seq<AncestorDir>) -> Seq<AncestorModel> {
    v.map_values(|a: AncestorDir| a@)
}

/// `ps` with `p` added at the end unless it is there.
pub open spec fn push_new(ps: Seq<Seq<char>>, p: Seq<char>) -> Seq<Seq<char>> {
    if ps.contains(p) {
        ps
    } else {
        ps.push(p)
    }
}

/// `ps` with `p` added when `cond` holds.
pub open spec fn push_new_if(ps: Seq<Seq<char>>, cond: bool, p: Seq<char>) -> Seq<Seq<char>> {
    if cond {
        push_new(ps, p)
    } else {
        ps
    }
}

/// The directories that the first project root among `anc[i..]` (from the
/// nearest up) adds to `ps`: a Unity project root with its `Assets` and
/// `Packages` (and its package cache when there is one), or an Unreal
/// project root with its `Shaders` folder when there is one.
pub open spec fn project_dirs(ps: Seq<Seq<char>>, anc: Seq<AncestorModel>, i: int) -> Seq<Seq<char>>
    decreases anc.len() - i,
{
    if 0 <= i < anc.len() {
        let a = anc[i];
        if a.unity_project {
            push_new_if(
                push_new(push_new(push_new(ps, a.path), a.assets), a.packages),
                a.has_package_cache,
                a.package_cache,
            )
        } else if a.unreal_project {
            push_new_if(push_new(ps, a.path), a.has_shaders, a.shaders)
        } else {
            project_dirs(ps, anc, i + 1)
        }
    } else {
        ps
    }
}

/// The include search directories: the document's directory (`parent`,
/// when it has one) and its project root's directories (`anc` lists the
/// directories above it, nearest first), then the workspace root and those
/// of its `Assets`, `Packages` and package cache folders that exist; each
/// once.
pub open spec fn search_dirs(
    parent: Option<Seq<char>>,
    anc: Seq<AncestorModel>,
    ws: Option<WorkspaceModel>,
) -> Seq<Seq<char>> {
    let base = match parent {
        Some(p) => project_dirs(seq![p], anc, 0),
        None => seq![],
    };
    match ws {
        Some(w) => push_new_if(
            push_new_if(push_new_if(push_new(base, w.path), w.has_assets, w.assets), w.has_packages, w.packages),
            w.has_package_cache,
            w.package_cache,
        ),
        None => base,
    }
}

/// Adds `p` to `ps` unless it is there.
fn push_new_exec(ps: &mut Vec<String>, p: &String)
    ensures
        strings_view(final(ps)@) == push_new(strings_view(old(ps)@), p@),
{
    let ghost sv = strings_view(ps@);
    let pc = crate::text::to_chars(p.as_str());
    proof {
        assert(pc@.subrange(0, pc@.len() as int) =~= pc@);
    }
    let mut i: usize = 0;
    while i < ps.len()
        invariant
            sv == strings_view(ps@),
            pc@ == p@,
            pc@.subrange(0, pc@.len() as int) == pc@,
            i <= ps@.len(),
            forall|j: int| 0 <= j < i ==> sv[j] != p@,
        decreases ps.len() - i,
    {
        proof {
            assert(sv[i as int] == ps@[i as int]@);
        }
        if crate::strops::eq_str(pc.as_slice(), 0, pc.len(), ps[i].as_str()) {
            proof {
                assert(sv.contains(p@));
            }
            return;
        }
        i = i + 1;
    }
    ps.push(p.clone());
    proof {
        assert(!sv.contains(p@));
        assert(strings_view(ps@) =~= sv.push(p@));
    }
}

/// The include search directories, from what the file system shows of the
/// directories above the document (`ancestors`, nearest first) and of the
/// workspace root.
pub fn include_search_dirs(parent: Option<String>, ancestors: &[AncestorDir], ws: Option<WorkspaceDir>) -> (r: Vec<String>)
    ensures
        strings_view(r@) == search_dirs(crate::text::opt_view(parent), ancestors_view(ancestors@), match ws {
            Some(w) => Some(w@),
            None => None,
        }),
{
    let ghost av = ancestors_view(ancestors@);
    let mut ps: Vec<String> = Vec::new();
    match &parent {
        Some(p) => {
            ps.push(p.clone());
            proof {
                assert(strings_view(ps@) =~= seq![p@]);
            }
            let ghost start = strings_view(ps@);
            let mut i: usize = 0;
            while i < ancestors.len()
                invariant_except_break
                    project_dirs(start, av, 0) == project_dirs(strings_view(ps@), av, i as int),
                invariant
                    av == ancestors_view(ancestors@),
                    start == seq![p@],
                    i <= ancestors@.len(),
                ensures
                    strings_view(ps@) == project_dirs(start, av, 0),
                decreases ancestors.len() - i,
            {
                let a = &ancestors[i];
                proof {
                    assert(av[i as int] == a@);
                }
                if a.unity_project {
                    push_new_exec(&mut ps, &a.path);
                    push_new_exec(&mut ps, &a.assets);
                    push_new_exec(&mut ps, &a.packages);
                    if a.has_package_cache {
                        push_new_exec(&mut ps, &a.package_cache);
                    }
                    break;
                }
                if a.unreal_project {
                    push_new_exec(&mut ps, &a.path);
                    if a.has_shaders {
                        push_new_exec(&mut ps, &a.shaders);
                    }
                    break;
                }
                i = i + 1;
            }
        },
        None => {
            proof {
                assert(strings_view(ps@) =~= Seq::<Seq<char>>::empty());
            }
        },
    }
    match &ws {
        Some(w) => {
            push_new_exec(&mut ps, &w.path);
            if w.has_assets {
                push_new_exec(&mut ps, &w.assets);
            }
            if w.has_packages {
                push_new_exec(&mut ps, &w.packages);
            }
            if w.has_package_cache {
                push_new_exec(&mut ps, &w.package_cache);
            }
        },
        None => {},
    }
    ps
}

} // verus!
