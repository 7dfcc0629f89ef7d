//! Paths as sequences of pieces between separators, and the fixed places
//! where the server binary and its log folder are expected.
use vstd::prelude::*;
use vstd::string::*;

verus! {

/// The platform the shell runs on, which decides the path separators and
/// whether the executable sits inside an application bundle.
#[derive(Clone, Copy, Debug, PartialEq, Eq, Structural)]
pub enum Platform {
    Linux,
    MacOs,
    Windows,
}

pub open spec fn is_separator(c: char, platform: Platform) -> bool {
    c == '/' || (platform is Windows && c == '\\')
}

/// The separator written when a path is rendered.
pub open spec fn separator_of(platform: Platform) -> char {
    if platform is Windows {
        '\\'
    } else {
        '/'
    }
}

/// Splitting scans left to right: the pieces already closed, and the piece
/// being read.
pub open spec fn split_scan(s: Seq<char>, platform: Platform) -> (Seq<Seq<char>>, Seq<char>)
    decreases s.len(),
{
    if s.len() == 0 {
        (Seq::empty(), Seq::empty())
    } else {
        let (done, cur) = split_scan(s.drop_last(), platform);
        if is_separator(s.last(), platform) {
            (done.push(cur), Seq::empty())
        } else {
            (done, cur.push(s.last()))
        }
    }
}

/// The pieces of a path text between its separators, empty pieces kept:
/// `"/a/b"` has the pieces `""`, `"a"` and `"b"`. There is always one piece.
pub open spec fn split_spec(s: Seq<char>, platform: Platform) -> Seq<Seq<char>> {
    split_scan(s, platform).0.push(split_scan(s, platform).1)
}

/// The pieces written one after the other with `sep` between neighbours.
pub open spec fn join_spec(parts: Seq<Seq<char>>, sep: char) -> Seq<char>
    decreases parts.len(),
{
    if parts.len() == 0 {
        Seq::empty()
    } else if parts.len() == 1 {
        parts[0]
    } else {
        join_spec(parts.drop_last(), sep) + seq![sep] + parts.last()
    }
}

pub open spec fn views(v: Seq<String>) -> Seq<Seq<char>> {
    v.map_values(|s: String| s@)
}

/// Splits a path text into its pieces.
pub fn split_path(text: &str, platform: Platform) -> (r: Vec<String>)
    ensures
        views(r@) == split_spec(text@, platform),
{
    let n = text.unicode_len();
    let mut parts: Vec<String> = Vec::new();
    let mut start: usize = 0;
    let mut i: usize = 0;
    while i < n
        invariant
            n == text@.len(),
            start <= i <= n,
            split_scan(text@.subrange(0, i as int), platform) == (
            views(parts@),
            text@.subrange(start as int, i as int),
            ),
        decreases n - i,
    {
        let c = text.get_char(i);
        let ghost prev = text@.subrange(0, i as int);
        assert(text@.subrange(0, i + 1).drop_last() =~= prev);
        assert(text@.subrange(0, i + 1).last() == c);
        let is_sep = c == '/' || (platform == Platform::Windows && c == '\\');
        if is_sep {
            let piece = text.substring_char(start, i);
            parts.push(piece.to_owned());
            assert(views(parts@) =~= split_scan(prev, platform).0.push(
                text@.subrange(start as int, i as int),
            ));
            start = i + 1;
            assert(text@.subrange(start as int, i + 1) =~= Seq::<char>::empty());
        } else {
            assert(text@.subrange(start as int, i + 1) =~= text@.subrange(
                start as int,
                i as int,
            ).push(c));
        }
        i = i + 1;
    }
    let last = text.substring_char(start, n);
    parts.push(last.to_owned());
    assert(text@.subrange(0, n as int) =~= text@);
    assert(views(parts@) =~= split_spec(text@, platform));
    parts
}

/// Writes the pieces back into one path text.
pub fn join_path(parts: &Vec<String>, platform: Platform) -> (r: String)
    ensures
        r@ == join_spec(views(parts@), separator_of(platform)),
{
    let sep: &str = if platform == Platform::Windows {
        "\\"
    } else {
        "/"
    };
    proof {
        reveal_strlit("\\");
        reveal_strlit("/");
    }
    assert(sep@ == seq![separator_of(platform)]);
    let mut out = String::new();
    let mut i: usize = 0;
    while i < parts.len()
        invariant
            i <= parts.len(),
            sep@ == seq![separator_of(platform)],
            out@ == join_spec(views(parts@.subrange(0, i as int)), separator_of(platform)),
        decreases parts.len() - i,
    {
        let ghost before = out@;
        if i > 0 {
            out.append(sep);
        }
        out.append(parts[i].as_str());
        assert(views(parts@.subrange(0, i + 1)).drop_last() =~= views(
            parts@.subrange(0, i as int),
        ));
        assert(views(parts@.subrange(0, i + 1)).last() == parts@[i as int]@);
        if i == 0 {
            assert(out@ =~= parts@[0]@);
        } else {
            assert(out@ =~= before + seq![separator_of(platform)] + parts@[i as int]@);
        }
        i = i + 1;
    }
    assert(parts@.subrange(0, parts.len() as int) =~= parts@);
    out
}

/// The file name of the server binary.
pub const SIDECAR_NAME: &'static str = "spx-server";

/// The folder name of the server's logs, beside the server binary.
pub const LOGS_NAME: &'static str = "LOG";

/// The bundle folders that hold the executable of a macOS application:
/// `App.app/Contents/MacOS`.
pub open spec fn is_bundle_dir(parts: Seq<Seq<char>>, platform: Platform) -> bool {
    &&& platform is MacOs
    &&& parts.len() > 3
    &&& parts[parts.len() - 2] == "Contents"@
    &&& parts[parts.len() - 1] == "MacOS"@
}

/// The folder that the application is installed in: the executable's own
/// folder, or, inside a bundle, the folder that holds the bundle.
pub open spec fn install_dir_spec(exe_dir: Seq<Seq<char>>, platform: Platform) -> Seq<Seq<char>> {
    if is_bundle_dir(exe_dir, platform) {
        exe_dir.subrange(0, exe_dir.len() - 3)
    } else {
        exe_dir
    }
}

/// The path of `name` in the installation folder of an executable that runs
/// in `exe_dir`.
pub open spec fn beside_install_spec(exe_dir: Seq<char>, name: Seq<char>, platform: Platform) -> Seq<char> {
    join_spec(install_dir_spec(split_spec(exe_dir, platform), platform).push(name), separator_of(platform))
}

/// The folder that holds the file at `path`.
pub open spec fn parent_spec(path: Seq<char>, platform: Platform) -> Seq<char> {
    join_spec(split_spec(path, platform).drop_last(), separator_of(platform))
}

fn install_dir(exe_dir: Vec<String>, platform: Platform) -> (r: Vec<String>)
    ensures
        views(r@) == install_dir_spec(views(exe_dir@), platform),
{
    let n = exe_dir.len();
    if platform == Platform::MacOs && n > 3 {
        let contents = String::from_str("Contents");
        let macos = String::from_str("MacOS");
        proof {
            reveal_strlit("Contents");
            reveal_strlit("MacOS");
        }
        if exe_dir[n - 2] == contents && exe_dir[n - 1] == macos {
            let mut kept: Vec<String> = Vec::new();
            let mut i: usize = 0;
            while i < n - 3
                invariant
                    n == exe_dir.len(),
                    n > 3,
                    i <= n - 3,
                    kept@.len() == i,
                    forall|j: int| 0 <= j < i ==> kept@[j]@ == exe_dir@[j]@,
                decreases n - 3 - i,
            {
                let piece = exe_dir[i].clone();
                assert(piece@ == exe_dir@[i as int]@);
                kept.push(piece);
                i = i + 1;
            }
            assert(views(kept@) =~= views(exe_dir@).subrange(0, n - 3));
            return kept;
        }
    }
    exe_dir
}

fn beside_install(exe_dir: &str, name: &str, platform: Platform) -> (r: String)
    ensures
        r@ == beside_install_spec(exe_dir@, name@, platform),
{
    let mut parts = install_dir(split_path(exe_dir, platform), platform);
    let ghost before = parts@;
    parts.push(name.to_owned());
    assert(views(parts@) =~= views(before).push(name@));
    join_path(&parts, platform)
}

/// Where the server binary is looked for first: beside the installation
/// folder of the executable that runs in `exe_dir`.
pub fn sidecar_candidate(exe_dir: &str, platform: Platform) -> (r: String)
    ensures
        r@ == beside_install_spec(exe_dir@, SIDECAR_NAME@, platform),
{
    beside_install(exe_dir, SIDECAR_NAME, platform)
}

/// The folder that holds the server's logs.
pub fn logs_folder(exe_dir: &str, platform: Platform) -> (r: String)
    ensures
        r@ == beside_install_spec(exe_dir@, LOGS_NAME@, platform),
{
    beside_install(exe_dir, LOGS_NAME, platform)
}

/// A located server binary and the folder it is started in.
pub struct ResolvedPath {
    pub program: String,
    pub work_dir: String,
}

impl ResolvedPath {
    /// The binary at `path`, started in the folder that holds it.
    pub fn new(path: &str, platform: Platform) -> (r: ResolvedPath)
        ensures
            r.program@ == path@,
            r.work_dir@ == parent_spec(path@, platform),
    {
        let mut parts = split_path(path, platform);
        let ghost all = parts@;
        parts.pop();
        assert(views(parts@) =~= views(all).drop_last());
        ResolvedPath { program: path.to_owned(), work_dir: join_path(&parts, platform) }
    }
}

} // verus!
