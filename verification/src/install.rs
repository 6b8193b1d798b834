//! How the editor extension finds the language server and the DXC compiler:
//! the configured path, the release assets for a platform, the places an
//! unpacked release keeps its binary, and the server's environment.
use vstd::prelude::*;
use crate::strops::{contains, ends_with, starts_with, trim};
use crate::text::{push_str, str_string, to_chars};

verus! {

/// A processor architecture the editor reports.
#[derive(Debug, Clone, Copy, PartialEq, Eq, Structural)]
pub enum Architecture {
    Aarch64,
    X86,
    X8664,
}

/// An operating system the editor reports.
#[derive(Debug, Clone, Copy, PartialEq, Eq, Structural)]
pub enum Os {
    Mac,
    Linux,
    Windows,
}

/// The first of the settings values (each the string found under one key,
/// if any) that is not blank, trimmed.
pub open spec fn first_nonblank(values: Seq<Option<Seq<char>>>, i: int) -> Option<Seq<char>>
    decreases values.len() - i,
{
    if 0 <= i < values.len() {
        match values[i] {
            Some(s) => if trim(s).len() > 0 {
                Some(trim(s))
            } else {
                first_nonblank(values, i + 1)
            },
            None => first_nonblank(values, i + 1),
        }
    } else {
        None
    }
}

pub open spec fn opts_view(v: Seq<Option<String>>) -> Seq<Option<Seq<char>>> {
    v.map_values(|o: Option<String>| crate::text::opt_view(o))
}

/// The path configured in the settings: the first value, among those found
/// under the recognised keys in order, that is not blank, trimmed.
pub fn configured_path(values: &[Option<String>]) -> (r: Option<String>)
    ensures
        crate::text::opt_view(r) == first_nonblank(opts_view(values@), 0),
{
    let ghost vs = opts_view(values@);
    let mut i: usize = 0;
    while i < values.len()
        invariant
            vs == opts_view(values@),
            i <= values@.len(),
            first_nonblank(vs, 0) == first_nonblank(vs, i as int),
        decreases values.len() - i,
    {
        proof {
            assert(vs[i as int] == crate::text::opt_view(values@[i as int]));
        }
        match &values[i] {
            Some(s) => {
                let c = to_chars(s.as_str());
                let (a, b) = crate::strops::trim_range(c.as_slice(), 0, c.len());
                proof {
                    assert(c@.subrange(0, c@.len() as int) =~= c@);
                }
                if a < b {
                    return Some(crate::text::range_string(c.as_slice(), a, b));
                }
            },
            None => {},
        }
        i = i + 1;
    }
    None
}

/// A DXC release asset for the platform: no debug symbols; a `dxc_*.zip`
/// on Windows, a `linux_dxc_*.tar.gz` (or `.tgz`) elsewhere.
pub open spec fn dxc_asset(name: Seq<char>, os: Os) -> bool {
    !contains(name, "pdb"@) && if os == Os::Windows {
        starts_with(name, "dxc_"@) && ends_with(name, ".zip"@)
    } else {
        starts_with(name, "linux_dxc_"@) && (ends_with(name, ".tar.gz"@) || ends_with(name, ".tgz"@))
    }
}

/// Whether `name` is the DXC release asset for `os`.
pub fn is_dxc_asset(name: &str, os: Os) -> (r: bool)
    ensures
        r == dxc_asset(name@, os),
{
    let c = to_chars(name);
    let n = c.len();
    proof {
        assert(c@.subrange(0, n as int) =~= c@);
    }
    if crate::strops::contains_str(c.as_slice(), 0, n, "pdb") {
        return false;
    }
    if os == Os::Windows {
        crate::strops::starts_with_str(c.as_slice(), 0, n, "dxc_") && crate::strops::ends_with_str(c.as_slice(), 0, n, ".zip")
    } else {
        crate::strops::starts_with_str(c.as_slice(), 0, n, "linux_dxc_") && (crate::strops::ends_with_str(
            c.as_slice(),
            0,
            n,
            ".tar.gz",
        ) || crate::strops::ends_with_str(c.as_slice(), 0, n, ".tgz"))
    }
}

/// Where an unpacked DXC release keeps its compiler, first: the
/// architecture's `bin` folder on Windows, `bin` elsewhere; and the file
/// name to look for anywhere in the release when it is not there.
pub open spec fn dxc_places(version_dir: Seq<char>, os: Os, arch: Architecture) -> (Seq<char>, Seq<char>) {
    if os == Os::Windows {
        let folder = match arch {
            Architecture::Aarch64 => "arm64"@,
            Architecture::X86 => "x86"@,
            Architecture::X8664 => "x64"@,
        };
        (version_dir + "/bin/"@ + folder + "/dxc.exe"@, "dxc.exe"@)
    } else {
        (version_dir + "/bin/dxc"@, "dxc"@)
    }
}

/// `dxc_places` at run time.
pub fn dxc_locations(version_dir: &str, os: Os, arch: Architecture) -> (r: (String, &'static str))
    ensures
        (r.0@, r.1@) == dxc_places(version_dir@, os, arch),
{
    let mut p = str_string(version_dir);
    if os == Os::Windows {
        let folder = match arch {
            Architecture::Aarch64 => "arm64",
            Architecture::X86 => "x86",
            Architecture::X8664 => "x64",
        };
        push_str(&mut p, "/bin/");
        push_str(&mut p, folder);
        push_str(&mut p, "/dxc.exe");
        (p, "dxc.exe")
    } else {
        push_str(&mut p, "/bin/dxc");
        (p, "dxc")
    }
}

/// The file name of the language server binary.
pub open spec fn validator_binary(os: Os) -> Seq<char> {
    if os == Os::Windows {
        "hlsl_validator.exe"@
    } else {
        "hlsl_validator"@
    }
}

/// `validator_binary` at run time.
pub fn validator_binary_name(os: Os) -> (r: &'static str)
    ensures
        r@ == validator_binary(os),
{
    if os == Os::Windows {
        "hlsl_validator.exe"
    } else {
        "hlsl_validator"
    }
}

/// Where an unpacked server release keeps its binary: at its root, then in
/// `bin`.
pub open spec fn validator_places(version_dir: Seq<char>, binary: Seq<char>) -> (Seq<char>, Seq<char>) {
    (version_dir + "/"@ + binary, version_dir + "/bin/"@ + binary)
}

/// `validator_places` at run time.
pub fn validator_locations(version_dir: &str, binary: &str) -> (r: (String, String))
    ensures
        (r.0@, r.1@) == validator_places(version_dir@, binary@),
{
    let mut root = str_string(version_dir);
    push_str(&mut root, "/");
    push_str(&mut root, binary);
    let mut bin = str_string(version_dir);
    push_str(&mut bin, "/bin/");
    push_str(&mut bin, binary);
    (root, bin)
}

/// The server release asset for the platform, and the one taken when it
/// is missing (Windows on ARM runs the x86-64 build).
pub open spec fn validator_assets(arch: Architecture, os: Os) -> (Seq<char>, Option<Seq<char>>) {
    let a = match arch {
        Architecture::Aarch64 => "aarch64"@,
        Architecture::X86 => "x86"@,
        Architecture::X8664 => "x86_64"@,
    };
    let o = match os {
        Os::Mac => "macos"@,
        Os::Linux => "linux"@,
        Os::Windows => "windows"@,
    };
    let ext = if os == Os::Windows {
        "zip"@
    } else {
        "tar.gz"@
    };
    (
        "hlsl_validator-"@ + a + "-"@ + o + "."@ + ext,
        if os == Os::Windows && arch == Architecture::Aarch64 {
            Some("hlsl_validator-x86_64-windows.zip"@)
        } else {
            None
        },
    )
}

/// `validator_assets` at run time.
pub fn validator_asset_names(arch: Architecture, os: Os) -> (r: (String, Option<&'static str>))
    ensures
        r.0@ == validator_assets(arch, os).0,
        match validator_assets(arch, os).1 {
            Some(f) => r.1 matches Some(rf) && rf@ == f,
            None => r.1 is None,
        },
{
    let a = match arch {
        Architecture::Aarch64 => "aarch64",
        Architecture::X86 => "x86",
        Architecture::X8664 => "x86_64",
    };
    let o = match os {
        Os::Mac => "macos",
        Os::Linux => "linux",
        Os::Windows => "windows",
    };
    let ext = if os == Os::Windows {
        "zip"
    } else {
        "tar.gz"
    };
    let mut name = str_string("hlsl_validator-");
    push_str(&mut name, a);
    push_str(&mut name, "-");
    push_str(&mut name, o);
    push_str(&mut name, ".");
    push_str(&mut name, ext);
    let fallback = if os == Os::Windows && arch == Architecture::Aarch64 {
        Some("hlsl_validator-x86_64-windows.zip")
    } else {
        None
    };
    (name, fallback)
}

/// The environment the language server starts with: `DXC_PATH` when a
/// compiler was found, `WORKSPACE_ROOT` when the worktree has a root.
pub open spec fn server_environment(dxc: Option<Seq<char>>, root: Seq<char>) -> Seq<(Seq<char>, Seq<char>)> {
    let e = match dxc {
        Some(d) => seq![("DXC_PATH"@, d)],
        None => seq![],
    };
    if root.len() > 0 {
        e.push(("WORKSPACE_ROOT"@, root))
    } else {
        e
    }
}

pub open spec fn env_view(v: Seq<(String, String)>) -> Seq<(Seq<char>, Seq<char>)> {
    v.map_values(|p: (String, String)| (p.0@, p.1@))
}

/// `server_environment` at run time.
pub fn server_env(dxc: Option<String>, root: String) -> (r: Vec<(String, String)>)
    ensures
        env_view(r@) == server_environment(crate::text::opt_view(dxc), root@),
{
    let mut env: Vec<(String, String)> = Vec::new();
    let ghost dv = crate::text::opt_view(dxc);
    let ghost rv = root@;
    match dxc {
        Some(d) => {
            env.push((str_string("DXC_PATH"), d));
        },
        None => {},
    }
    let ghost before = env_view(env@);
    proof {
        assert(before =~= match dv {
            Some(d) => seq![("DXC_PATH"@, d)],
            None => Seq::<(Seq<char>, Seq<char>)>::empty(),
        });
    }
    let rc = to_chars(root.as_str());
    if rc.len() > 0 {
        env.push((str_string("WORKSPACE_ROOT"), root));
        proof {
            assert(env_view(env@) =~= before.push(("WORKSPACE_ROOT"@, rv)));
        }
    }
    env
}

} // verus!
