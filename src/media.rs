//! Input validation done before playback: which files count as videos, and how
//! paths are joined on this platform.

use vstd::prelude::*;

verus! {

broadcast use vstd::utf8::encode_utf8_decode_utf8;

/// The file extensions accepted as video input, lower case, without the dot.
pub open spec fn video_extensions() -> Seq<Seq<char>> {
    seq![
        seq!['m', 'p', '4'],
        seq!['m', '4', 'v'],
        seq!['m', 'k', 'v'],
        seq!['w', 'e', 'b', 'm'],
        seq!['m', 'o', 'v'],
        seq!['a', 'v', 'i'],
        seq!['w', 'm', 'v'],
        seq!['m', 'p', 'g'],
        seq!['f', 'l', 'w'],
    ]
}

fn same_bytes(a: &[u8], b: &[u8]) -> (r: bool)
    ensures
        r == (a@ == b@),
{
    if a.len() != b.len() {
        return false;
    }
    let mut i: usize = 0;
    while i < a.len()
        invariant
            a@.len() == b@.len(),
            i <= a.len(),
            a@.subrange(0, i as int) == b@.subrange(0, i as int),
        decreases a.len() - i,
    {
        if a[i] != b[i] {
            assert(a@[i as int] != b@[i as int]);
            return false;
        }
        assert(a@.subrange(0, i + 1) =~= a@.subrange(0, i as int).push(a@[i as int]));
        assert(b@.subrange(0, i + 1) =~= b@.subrange(0, i as int).push(b@[i as int]));
        i = i + 1;
    }
    assert(a@ =~= a@.subrange(0, i as int));
    assert(b@ =~= b@.subrange(0, i as int));
    true
}

fn same_str(a: &str, b: &str) -> (r: bool)
    ensures
        r == (a@ == b@),
{
    let r = same_bytes(a.as_bytes(), b.as_bytes());
    proof {
        if r {
            assert(vstd::utf8::decode_utf8(vstd::utf8::encode_utf8(a@)) == a@);
            assert(vstd::utf8::decode_utf8(vstd::utf8::encode_utf8(b@)) == b@);
        }
    }
    r
}

/// Whether `extension` (a file name's extension, without the dot) names a
/// supported video format. The comparison is exact: case counts.
pub fn is_video(extension: &str) -> (r: bool)
    ensures
        r == video_extensions().contains(extension@),
{
    let formats: Vec<&str> = vec!["mp4", "m4v", "mkv", "webm", "mov", "avi", "wmv", "mpg", "flw"];
    proof {
        reveal_strlit("mp4");
        reveal_strlit("m4v");
        reveal_strlit("mkv");
        reveal_strlit("webm");
        reveal_strlit("mov");
        reveal_strlit("avi");
        reveal_strlit("wmv");
        reveal_strlit("mpg");
        reveal_strlit("flw");
    }
    let ghost exts = video_extensions();
    assert(formats.len() == exts.len());
    assert(forall|j: int| 0 <= j < exts.len() ==> formats@[j]@ == #[trigger] exts[j]);
    let mut i: usize = 0;
    while i < formats.len()
        invariant
            exts == video_extensions(),
            formats.len() == exts.len(),
            forall|j: int| 0 <= j < exts.len() ==> formats@[j]@ == #[trigger] exts[j],
            i <= formats.len(),
            forall|j: int| 0 <= j < i ==> #[trigger] exts[j] != extension@,
        decreases formats.len() - i,
    {
        if same_str(formats[i], extension) {
            assert(exts[i as int] == extension@);
            assert(exts.contains(extension@));
            return true;
        }
        i = i + 1;
    }
    false
}

/// Relies on `std::path::MAIN_SEPARATOR_STR`: the platform's path
/// separator, `/` or `\`.
#[verifier::external_body]
fn main_separator() -> (r: &'static str)
    ensures
        r@ == seq!['/'] || r@ == seq!['\\'],
{
    std::path::MAIN_SEPARATOR_STR
}

/// The separator that joins a directory and a file name on this platform:
/// `\` on Windows, `/` elsewhere.
pub fn get_system_backslash() -> (r: &'static str)
    ensures
        r@ == seq!['/'] || r@ == seq!['\\'],
{
    main_separator()
}

} // verus!
