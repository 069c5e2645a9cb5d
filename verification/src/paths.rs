//! Path planning and validation for one operation: where the output goes
//! when none was named — the input with the container's conventional
//! extension on compress, the input's parent directory on decompress — and
//! which filesystem states are fatal before any pipeline work starts. The
//! filesystem itself stays with the caller, who supplies the facts (exists,
//! is a file, is a directory) and performs the one planned removal.

use vstd::prelude::*;
use vstd::string::StrSliceExecFns;
use vstd::string::StringExecFns;

use crate::config::Args;
use crate::config::Command;
use crate::config::CompressType;

verus! {

/// The index of the last occurrence of `c` in `p`, or -1 when absent.
pub open spec fn last_index_of(p: Seq<char>, c: char) -> int
    decreases p.len(),
{
    if p.len() == 0 {
        -1
    } else if p.last() == c {
        p.len() - 1
    } else {
        last_index_of(p.drop_last(), c)
    }
}

/// The conventional extension of a container format.
pub open spec fn default_extension(t: CompressType) -> Seq<char> {
    match t {
        CompressType::TARZSTD => seq!['t', 'a', 'r', '.', 'z', 's', 't'],
        CompressType::ZIP => seq!['z', 'i', 'p'],
    }
}

/// The length of `p` without its trailing separators, which name the same
/// filesystem object and are ignored when replacing an extension.
pub open spec fn trimmed_len(p: Seq<char>) -> int
    decreases p.len(),
{
    if p.len() == 0 {
        0
    } else if p.last() == '/' {
        trimmed_len(p.drop_last())
    } else {
        p.len() as int
    }
}

/// `p` with its final component's extension replaced by `ext`: trailing
/// separators are dropped first; then everything from the component's last
/// dot on (when that dot is not its first character, which would mark a
/// hidden file rather than an extension) is dropped, and a dot and `ext`
/// are appended. A path of nothing but separators has no component to
/// rename and is kept unchanged.
pub open spec fn with_extension_spec(p: Seq<char>, ext: Seq<char>) -> Seq<char> {
    let t = p.take(trimmed_len(p));
    if t.len() == 0 {
        p
    } else {
        let name_start = last_index_of(t, '/') + 1;
        let dot_rel = last_index_of(t.subrange(name_start, t.len() as int), '.');
        let stem_end = if dot_rel > 0 {
            name_start + dot_rel
        } else {
            t.len() as int
        };
        t.take(stem_end) + seq!['.'] + ext
    }
}

/// The directory holding `p`: everything before the last separator; the
/// root when the separator opens the path; empty when there is none.
pub open spec fn parent_spec(p: Seq<char>) -> Seq<char> {
    let ls = last_index_of(p, '/');
    if ls == -1 {
        Seq::<char>::empty()
    } else if ls == 0 {
        seq!['/']
    } else {
        p.take(ls)
    }
}

/// The planned output path of an operation: the named one when given; else,
/// on compress, the input with the container's conventional extension, and,
/// on decompress, the input's parent directory.
pub open spec fn plan_output_spec(a: Args) -> Seq<char> {
    match a.output {
        Some(o) => o@,
        None => match a.command {
            Command::C => with_extension_spec(a.input@, default_extension(a.compress_type)),
            Command::X => parent_spec(a.input@),
        },
    }
}

/// Finds the last occurrence of `c` in `s`.
pub fn find_last_char(s: &str, c: char) -> (r: Option<usize>)
    ensures
        match r {
            Some(k) => k < s@.len() && last_index_of(s@, c) == k,
            None => last_index_of(s@, c) == -1,
        },
{
    let n = s.unicode_len();
    let mut j = n;
    proof {
        assert(s@.take(n as int) =~= s@);
    }
    while j > 0
        invariant
            j <= n,
            n == s@.len(),
            last_index_of(s@, c) == last_index_of(s@.take(j as int), c),
        decreases j,
    {
        proof {
            assert(s@.take(j as int).drop_last() =~= s@.take(j - 1));
            assert(s@.take(j as int).last() == s@[j - 1]);
        }
        let ch = s.get_char(j - 1);
        if ch == c {
            return Some(j - 1);
        }
        j = j - 1;
    }
    proof {
        assert(s@.take(0).len() == 0);
    }
    None
}

/// Replaces the extension of the final component of `p` by `ext`, per
/// `with_extension_spec`.
pub fn string_with_extension(p: &String, ext: &str) -> (r: String)
    ensures
        r@ == with_extension_spec(p@, ext@),
{
    let full = p.as_str().unicode_len();
    let mut m: usize = full;
    proof {
        assert(p@.take(full as int) =~= p@);
    }
    while m > 0 && p.as_str().get_char(m - 1) == '/'
        invariant
            m <= full,
            full == p@.len(),
            trimmed_len(p@) == trimmed_len(p@.take(m as int)),
        decreases m,
    {
        proof {
            assert(p@.take(m as int).drop_last() =~= p@.take(m - 1));
            assert(p@.take(m as int).last() == p@[m - 1]);
        }
        m = m - 1;
    }
    proof {
        if m == 0 {
            assert(p@.take(0).len() == 0);
        }
        assert(trimmed_len(p@) == m);
    }
    if m == 0 {
        return p.clone();
    }
    let t = p.as_str().substring_char(0, m);
    let n = t.unicode_len();
    let name_start: usize = match find_last_char(t, '/') {
        Some(k) => k + 1,
        None => 0,
    };
    let name = t.substring_char(name_start, n);
    let stem_end: usize = match find_last_char(name, '.') {
        Some(d) => if d > 0 {
            name_start + d
        } else {
            n
        },
        None => n,
    };
    let mut r = t.substring_char(0, stem_end).to_owned();
    proof {
        reveal_strlit(".");
        assert("."@ =~= seq!['.']);
    }
    r.append(".");
    r.append(ext);
    proof {
        assert(r@ =~= with_extension_spec(p@, ext@));
    }
    r
}

/// The directory holding `p`, per `parent_spec`.
pub fn string_parent(p: &String) -> (r: String)
    ensures
        r@ == parent_spec(p@),
{
    match find_last_char(p.as_str(), '/') {
        None => String::new(),
        Some(k) => {
            if k == 0 {
                proof {
                    reveal_strlit("/");
                    assert("/"@ =~= seq!['/']);
                }
                String::from_str("/")
            } else {
                p.as_str().substring_char(0, k).to_owned()
            }
        },
    }
}

/// Plans the output path of the operation, per `plan_output_spec`.
pub fn plan_output(a: &Args) -> (r: String)
    ensures
        r@ == plan_output_spec(*a),
{
    match &a.output {
        Some(o) => o.clone(),
        None => match a.command {
            Command::C => {
                match a.compress_type {
                    CompressType::TARZSTD => {
                        proof {
                            reveal_strlit("tar.zst");
                            assert("tar.zst"@ =~= default_extension(CompressType::TARZSTD));
                        }
                        string_with_extension(&a.input, "tar.zst")
                    },
                    CompressType::ZIP => {
                        proof {
                            reveal_strlit("zip");
                            assert("zip"@ =~= default_extension(CompressType::ZIP));
                        }
                        string_with_extension(&a.input, "zip")
                    },
                }
            },
            Command::X => string_parent(&a.input),
        },
    }
}

/// A fatal setup failure, surfaced before any pipeline work starts.
#[derive(Debug, Copy, Clone, PartialEq, Eq, Structural)]
pub enum PathError {
    /// The input path does not exist.
    InputMissing,
    /// Decompression asks for a file, and the input is not one.
    InputNotFile,
    /// The planned output exists and is not a directory.
    OutputNotDirectory,
}

/// Validates the operation's paths from the filesystem facts the caller
/// supplies, and plans the one destructive step: on compress, an existing
/// output file is to be removed first — `Ok(true)` asks the caller to do so.
/// Each error comes exactly on the states described at its declaration; on
/// decompress nothing is ever removed.
pub fn validate_paths(
    command: Command,
    input_exists: bool,
    input_is_file: bool,
    output_exists: bool,
    output_is_dir: bool,
) -> (r: Result<bool, PathError>)
    ensures
        r == Err::<bool, PathError>(PathError::InputMissing) <==> !input_exists,
        r == Err::<bool, PathError>(PathError::InputNotFile) <==> (input_exists && command
            == Command::X && !input_is_file),
        r == Err::<bool, PathError>(PathError::OutputNotDirectory) <==> (input_exists && command
            == Command::X && input_is_file && output_exists && !output_is_dir),
        command == Command::C && input_exists ==> r == Ok::<bool, PathError>(output_exists),
        command == Command::X && input_exists && input_is_file && (output_exists ==> output_is_dir)
            ==> r == Ok::<bool, PathError>(false),
{
    if !input_exists {
        return Err(PathError::InputMissing);
    }
    match command {
        Command::C => Ok(output_exists),
        Command::X => {
            if !input_is_file {
                Err(PathError::InputNotFile)
            } else if output_exists && !output_is_dir {
                Err(PathError::OutputNotDirectory)
            } else {
                Ok(false)
            }
        },
    }
}

} // verus!
