use vstd::prelude::*;

verus! {

/// Whether `a` and `b` hold the same characters.
fn same_text(a: &str, b: &str) -> (r: bool)
    ensures
        r == (a@ == b@),
{
    let n = a.unicode_len();
    if n != b.unicode_len() {
        return false;
    }
    let mut i: usize = 0;
    while i < n
        invariant
            n == a@.len(),
            n == b@.len(),
            i <= n,
            forall|j: int| 0 <= j < i ==> a@[j] == b@[j],
        decreases n - i,
    {
        if a.get_char(i) != b.get_char(i) {
            return false;
        }
        i = i + 1;
    }
    assert(a@ =~= b@);
    true
}

/// Whether a file extension, without its dot, names a playable audio format.
pub fn is_music_extension(ext: &str) -> (r: bool)
    ensures
        r == (ext@ == "wav"@ || ext@ == "ogg"@ || ext@ == "mp3"@),
{
    same_text(ext, "wav") || same_text(ext, "ogg") || same_text(ext, "mp3")
}

} // verus!
