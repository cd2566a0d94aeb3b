//! Where a ROM's battery save (`<rom>.sav`) and save state (`<rom>.state`)
//! live: next to the ROM, with the extension swapped.
use vstd::prelude::*;
use vstd::string::StrSliceExecFns;
use crate::text::{push_char, push_str};

verus! {

/// Index of the last `c` in `s`, or -1.
pub open spec fn last_index_of(s: Seq<char>, c: char) -> int
    decreases s.len(),
{
    if s.len() == 0 {
        -1
    } else if s.last() == c {
        s.len() - 1
    } else {
        last_index_of(s.drop_last(), c)
    }
}

/// `path` with the extension of its file name replaced by `ext`. The file
/// name is what follows the last `/`; its extension is what follows its
/// last `.`, unless that `.` starts the name. A name without an extension
/// gets `.ext` appended.
pub open spec fn with_extension_spec(path: Seq<char>, ext: Seq<char>) -> Seq<char> {
    let start = last_index_of(path, '/') + 1;
    let dot = last_index_of(path.subrange(start, path.len() as int), '.');
    let stem_end = if dot > 0 {
        start + dot
    } else {
        path.len() as int
    };
    path.subrange(0, stem_end) + seq!['.'] + ext
}

proof fn lemma_last_index_bounds(s: Seq<char>, c: char)
    ensures
        -1 <= last_index_of(s, c) < s.len(),
    decreases s.len(),
{
    if s.len() > 0 && s.last() != c {
        lemma_last_index_bounds(s.drop_last(), c);
    }
}

/// The last `c` in `s[from..]`, as an index relative to `from`.
fn last_index_from(s: &str, from: usize, c: char) -> (r: Option<usize>)
    requires
        from <= s@.len(),
    ensures
        match r {
            Some(k) => k == last_index_of(s@.subrange(from as int, s@.len() as int), c),
            None => last_index_of(s@.subrange(from as int, s@.len() as int), c) == -1,
        },
{
    let n = s.unicode_len();
    let mut found: Option<usize> = None;
    let mut i: usize = from;
    while i < n
        invariant
            from <= i <= n,
            n == s@.len(),
            match found {
                Some(k) => k == last_index_of(s@.subrange(from as int, i as int), c),
                None => last_index_of(s@.subrange(from as int, i as int), c) == -1,
            },
        decreases n - i,
    {
        proof {
            lemma_last_index_bounds(s@.subrange(from as int, i as int), c);
            assert(s@.subrange(from as int, i as int + 1).drop_last() =~= s@.subrange(from as int, i as int));
        }
        if s.get_char(i) == c {
            found = Some(i - from);
        }
        i = i + 1;
    }
    found
}

/// `path` with its file name's extension replaced by `ext`.
fn with_extension(path: &str, ext: &str) -> (r: String)
    ensures
        r@ == with_extension_spec(path@, ext@),
{
    let n = path.unicode_len();
    let slash = last_index_from(path, 0, '/');
    proof {
        lemma_last_index_bounds(path@, '/');
        assert(path@.subrange(0, n as int) =~= path@);
    }
    let start: usize = match slash {
        Some(k) => k + 1,
        None => 0,
    };
    let dot = last_index_from(path, start, '.');
    proof {
        lemma_last_index_bounds(path@.subrange(start as int, n as int), '.');
    }
    let stem_end: usize = match dot {
        Some(k) => if k > 0 {
            start + k
        } else {
            n
        },
        None => n,
    };
    let mut r = String::new();
    let mut i: usize = 0;
    while i < stem_end
        invariant
            i <= stem_end <= n,
            n == path@.len(),
            r@ == path@.subrange(0, i as int),
        decreases stem_end - i,
    {
        push_char(&mut r, path.get_char(i));
        i = i + 1;
        proof {
            assert(r@ =~= path@.subrange(0, i as int));
        }
    }
    push_char(&mut r, '.');
    push_str(&mut r, ext);
    r
}

/// The battery-save path for a ROM: same location, `.sav` extension.
pub fn save_path_for(rom: &str) -> (r: String)
    ensures
        r@ == with_extension_spec(rom@, seq!['s', 'a', 'v']),
{
    proof {
        reveal_strlit("sav");
    }
    with_extension(rom, "sav")
}

/// The save-state path for a ROM: same location, `.state` extension.
pub fn state_path_for(rom: &str) -> (r: String)
    ensures
        r@ == with_extension_spec(rom@, seq!['s', 't', 'a', 't', 'e']),
{
    proof {
        reveal_strlit("state");
    }
    with_extension(rom, "state")
}

} // verus!
