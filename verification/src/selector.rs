//! Sound selection: given the entries of the asset directory, keep the
//! eligible audio files and pick one of them uniformly at random.
//!
//! An entry is eligible when its file name carries one of the extensions
//! `mp3`, `ogg` or `wav`, matched case-sensitively on the stored name.  The
//! expected answer is the base name with the extension stripped; a name that
//! could not be decoded as text falls back to a literal placeholder.
//! Directory listing itself is an external collaborator: the caller hands
//! the entries over as plain values.

use crate::text::copy_chars;
use vstd::prelude::*;

verus! {

/// One directory entry as the filesystem layer hands it over: the file name
/// (the final path component) and whether that name was decodable as text.
pub struct FileEntry {
    pub name: Vec<char>,
    pub decodable: bool,
}

/// A chosen clip: the file name, which identifies the clip towards the
/// playback engine, and the expected answer derived from it.
pub struct Selection {
    pub file_name: Vec<char>,
    pub answer: Vec<char>,
}

/// Selection failure: the directory holds no eligible audio file.  A missing
/// directory never reaches selection; the filesystem layer reports it on its
/// own, with a distinct exit code.
#[derive(Clone, Copy, Debug, PartialEq, Eq, Structural)]
pub enum SelectError {
    NoEligibleFiles,
}

/// Index of the last `'.'` in `name`, or `-1` when there is none.
pub open spec fn last_dot(name: Seq<char>) -> int
    decreases name.len(),
{
    if name.len() == 0 {
        -1
    } else if name[name.len() - 1] == '.' {
        name.len() - 1
    } else {
        last_dot(name.take(name.len() - 1))
    }
}

/// An entry is eligible when a non-empty base name is followed by one of the
/// extensions `mp3`, `ogg` or `wav`.
pub open spec fn eligible(name: Seq<char>) -> bool {
    last_dot(name) > 0 && {
        let ext = name.skip(last_dot(name) + 1);
        ext == seq!['m', 'p', '3'] || ext == seq!['o', 'g', 'g'] || ext == seq!['w', 'a', 'v']
    }
}

/// The base name: everything before the last dot.
pub open spec fn stem(name: Seq<char>) -> Seq<char>
    recommends
        eligible(name),
{
    name.take(last_dot(name))
}

/// The literal answer used when a file name was not decodable as text.
pub open spec fn placeholder_seq() -> Seq<char> {
    seq!['U', 'n', 'b', 'e', 'k', 'a', 'n', 'n', 't']
}

/// The answer derived from an eligible entry: the base name where the name
/// was decodable, the placeholder otherwise.
pub open spec fn answer_of(e: FileEntry) -> Seq<char>
    recommends
        eligible(e.name@),
{
    if e.decodable {
        stem(e.name@)
    } else {
        placeholder_seq()
    }
}

/// The last-dot index lies inside the name whenever it exists.
pub proof fn lemma_last_dot_bounds(name: Seq<char>)
    ensures
        -1 <= last_dot(name) < name.len() || (name.len() == 0 && last_dot(name) == -1),
    decreases name.len(),
{
    if name.len() != 0 && name[name.len() - 1] != '.' {
        lemma_last_dot_bounds(name.take(name.len() - 1));
    }
}

/// Index of the last `'.'` of `name`, or `None` when there is none.
pub fn find_last_dot(name: &Vec<char>) -> (r: Option<usize>)
    ensures
        match r {
            Some(i) => last_dot(name@) == i,
            None => last_dot(name@) == -1,
        },
{
    let mut i: usize = name.len();
    proof {
        assert(name@.take(i as int) =~= name@);
    }
    while i > 0
        invariant
            i <= name@.len(),
            last_dot(name@) == last_dot(name@.take(i as int)),
        decreases i,
    {
        if name[i - 1] == '.' {
            return Some(i - 1);
        }
        i = i - 1;
        proof {
            assert(name@.take(i + 1).take(i as int) =~= name@.take(i as int));
        }
    }
    None
}

/// Whether the entry name carries one of the eligible extensions.
pub fn is_eligible(name: &Vec<char>) -> (r: bool)
    ensures
        r == eligible(name@),
{
    let n = name.len();
    match find_last_dot(name) {
        None => false,
        Some(i) => {
            proof {
                lemma_last_dot_bounds(name@);
            }
            if i == 0 {
                false
            } else if n - i - 1 != 3 {
                false
            } else {
                let a = name[i + 1];
                let b = name[i + 2];
                let c = name[i + 3];
                let is_mp3 = a == 'm' && b == 'p' && c == '3';
                let is_ogg = a == 'o' && b == 'g' && c == 'g';
                let is_wav = a == 'w' && b == 'a' && c == 'v';
                let r = is_mp3 || is_ogg || is_wav;
                proof {
                    let ext = name@.skip(i + 1);
                    assert(ext.len() == 3);
                    assert(ext[0] == name@[i + 1]);
                    assert(ext[1] == name@[i + 2]);
                    assert(ext[2] == name@[i + 3]);
                    if is_mp3 {
                        assert(ext =~= seq!['m', 'p', '3']);
                    }
                    if is_ogg {
                        assert(ext =~= seq!['o', 'g', 'g']);
                    }
                    if is_wav {
                        assert(ext =~= seq!['w', 'a', 'v']);
                    }
                }
                r
            }
        },
    }
}

/// The base name of an eligible entry, the extension stripped.
pub fn stem_chars(name: &Vec<char>) -> (r: Vec<char>)
    requires
        eligible(name@),
    ensures
        r@ == stem(name@),
{
    proof {
        lemma_last_dot_bounds(name@);
    }
    let dot = match find_last_dot(name) {
        Some(i) => i,
        None => {
            proof {
                assert(false);
            }
            0
        },
    };
    let mut r: Vec<char> = Vec::new();
    let mut i: usize = 0;
    while i < dot
        invariant
            i <= dot <= name@.len(),
            r@ =~= name@.take(i as int),
        decreases dot - i,
    {
        r.push(name[i]);
        i = i + 1;
    }
    proof {
        assert(r@ =~= name@.take(dot as int));
    }
    r
}

/// The placeholder answer as a character vector.
pub fn placeholder_chars() -> (r: Vec<char>)
    ensures
        r@ == placeholder_seq(),
{
    let mut r: Vec<char> = Vec::new();
    r.push('U');
    r.push('n');
    r.push('b');
    r.push('e');
    r.push('k');
    r.push('a');
    r.push('n');
    r.push('n');
    r.push('t');
    proof {
        assert(r@ =~= placeholder_seq());
    }
    r
}

/// The indices of the eligible entries, in order and without repetition.
pub fn eligible_indices(entries: &Vec<FileEntry>) -> (r: Vec<usize>)
    ensures
        forall|k: int|
            0 <= k < r@.len() ==> r@[k] < entries@.len() && eligible(
                entries@[r@[k] as int].name@,
            ),
        forall|i: int|
            0 <= i < entries@.len() && eligible(entries@[i].name@) ==> r@.contains(i as usize),
        forall|k1: int, k2: int| 0 <= k1 < k2 < r@.len() ==> r@[k1] < r@[k2],
        (r@.len() == 0) <==> (forall|i: int|
            0 <= i < entries@.len() ==> !eligible(entries@[i].name@)),
{
    let mut r: Vec<usize> = Vec::new();
    let mut i: usize = 0;
    while i < entries.len()
        invariant
            i <= entries@.len(),
            forall|k: int| 0 <= k < r@.len() ==> r@[k] < i && eligible(entries@[r@[k] as int].name@),
            forall|j: int| 0 <= j < i && eligible(entries@[j].name@) ==> r@.contains(j as usize),
            forall|k1: int, k2: int| 0 <= k1 < k2 < r@.len() ==> r@[k1] < r@[k2],
        decreases entries@.len() - i,
    {
        let e = is_eligible(&entries[i].name);
        if e {
            let ghost old_r = r@;
            r.push(i);
            proof {
                assert(r@[r@.len() - 1] == i);
                assert forall|j: int|
                    0 <= j < i + 1 && eligible(entries@[j].name@) implies r@.contains(
                    j as usize,
                ) by {
                    if j < i {
                        let k = choose|k: int| 0 <= k < old_r.len() && old_r[k] == j as usize;
                        assert(r@[k] == j as usize);
                    } else {
                        assert(r@[r@.len() - 1] == j as usize);
                    }
                }
            }
        }
        i = i + 1;
    }
    proof {
        if r@.len() > 0 {
            assert(eligible(entries@[r@[0] as int].name@));
        }
    }
    r
}

/// Relies on rand's `Rng::random_range` over `0..n`: the result is drawn
/// uniformly from the range, so in particular it is below `n`; the range is
/// non-empty, so the call does not panic.
#[verifier::external_body]
fn pick_index(n: usize) -> (r: usize)
    requires
        n >= 1,
    ensures
        r < n,
{
    let mut generator = rand::rng();
    rand::Rng::random_range(&mut generator, 0..n)
}

/// The selection a given eligible entry yields: the entry's name as clip
/// identifier and the answer derived from it.
pub fn selection_of_entry(entry: &FileEntry) -> (r: Selection)
    requires
        eligible(entry.name@),
    ensures
        r.file_name@ == entry.name@,
        r.answer@ == answer_of(*entry),
{
    let file_name = copy_chars(&entry.name);
    let answer = if entry.decodable {
        stem_chars(&entry.name)
    } else {
        placeholder_chars()
    };
    Selection { file_name, answer }
}

/// Picks one eligible entry uniformly at random.  Fails exactly when no
/// entry is eligible; the chosen clip is always one of the eligible entries.
pub fn select(entries: &Vec<FileEntry>) -> (r: Result<Selection, SelectError>)
    ensures
        match r {
            Ok(sel) => exists|i: int|
                0 <= i < entries@.len() && eligible(entries@[i].name@) && sel.file_name@
                    == entries@[i].name@ && sel.answer@ == answer_of(entries@[i]),
            Err(e) => e == SelectError::NoEligibleFiles && forall|i: int|
                0 <= i < entries@.len() ==> !eligible(entries@[i].name@),
        },
{
    let idx = eligible_indices(entries);
    if idx.len() == 0 {
        Err(SelectError::NoEligibleFiles)
    } else {
        let k = pick_index(idx.len());
        let i = idx[k];
        let sel = selection_of_entry(&entries[i]);
        Ok(sel)
    }
}

} // verus!
