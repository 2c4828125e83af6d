//! Where a map file lives and how a missing one would be fetched.
//!
//! Fetching itself is plain HTTP and archive unpacking and stays with the
//! unverified glue; what is decided here, and verified, is the path a map
//! name maps to and which source a download request resolves to.

use vstd::prelude::*;

verus! {

// ---------------------------------------------------------------------------
// Verified string helpers.
// ---------------------------------------------------------------------------

/// `sub` occurs in `s` starting at position `i`.
pub open spec fn spec_contains_at(s: Seq<char>, sub: Seq<char>, i: int) -> bool {
    0 <= i && i + sub.len() <= s.len() && s.subrange(i, i + sub.len()) == sub
}

/// `sub` occurs somewhere in `s`.
pub open spec fn spec_contains(s: Seq<char>, sub: Seq<char>) -> bool {
    exists|i: int| spec_contains_at(s, sub, i)
}

/// How many times `c` occurs in `s` at or after position `from`.
pub open spec fn spec_count_char_from(s: Seq<char>, c: char, from: int) -> int
    decreases s.len() - from,
    when 0 <= from <= s.len()
{
    if from >= s.len() {
        0
    } else {
        (if s[from] == c {
            1int
        } else {
            0
        }) + spec_count_char_from(s, c, from + 1)
    }
}

/// The first position of `c` in `s` at or after `from`, or `s.len()` when
/// there is none.
pub open spec fn spec_find_char(s: Seq<char>, c: char, from: int) -> int
    decreases s.len() - from,
    when 0 <= from <= s.len()
{
    if from >= s.len() {
        s.len() as int
    } else if s[from] == c {
        from
    } else {
        spec_find_char(s, c, from + 1)
    }
}

/// Every occurrence counted from `from` can be found: the first one lies
/// before the end, carries `c`, and the rest count on after it.
pub proof fn lemma_find_counted_char(s: Seq<char>, c: char, from: int)
    requires
        0 <= from <= s.len(),
        spec_count_char_from(s, c, from) > 0,
    ensures
        from <= spec_find_char(s, c, from) < s.len(),
        s[spec_find_char(s, c, from)] == c,
        spec_count_char_from(s, c, spec_find_char(s, c, from) + 1) == spec_count_char_from(
            s,
            c,
            from,
        ) - 1,
    decreases s.len() - from,
{
    if s[from] == c {
    } else {
        lemma_find_counted_char(s, c, from + 1);
    }
}

/// Whether `sub` stands at position `i` of `s`.
fn match_at(s: &str, sub: &str, i: usize) -> (r: bool)
    requires
        i + sub@.len() <= s@.len(),
    ensures
        r == (s@.subrange(i as int, i + sub@.len()) == sub@),
{
    let n = s.unicode_len();
    let m = sub.unicode_len();
    let mut j: usize = 0;
    while j < m
        invariant
            j <= m,
            n == s@.len(),
            m == sub@.len(),
            i + m <= n,
            forall|j2: int| 0 <= j2 < j ==> s@[i + j2] == sub@[j2],
        decreases m - j,
    {
        if s.get_char(i + j) != sub.get_char(j) {
            proof {
                assert(s@.subrange(i as int, i + sub@.len())[j as int] == s@[i + j]);
            }
            return false;
        }
        j += 1;
    }
    proof {
        assert(s@.subrange(i as int, i + sub@.len()) =~= sub@);
    }
    true
}

/// Whether `sub` occurs anywhere in `s`.
pub fn str_contains(s: &str, sub: &str) -> (r: bool)
    ensures
        r == spec_contains(s@, sub@),
{
    let n = s.unicode_len();
    let m = sub.unicode_len();
    if m > n {
        return false;
    }
    if m == 0 {
        proof {
            assert(s@.subrange(0, 0) =~= sub@);
            assert(spec_contains_at(s@, sub@, 0));
        }
        return true;
    }
    let mut i: usize = 0;
    while i <= n - m
        invariant
            1 <= m <= n,
            n == s@.len(),
            m == sub@.len(),
            i <= n - m + 1,
            forall|i2: int| 0 <= i2 < i ==> !spec_contains_at(s@, sub@, i2),
        decreases n - i,
    {
        if match_at(s, sub, i) {
            proof {
                assert(spec_contains_at(s@, sub@, i as int));
            }
            return true;
        }
        i += 1;
    }
    false
}

/// How many times `c` occurs in `s`.
pub fn count_char(s: &str, c: char) -> (r: usize)
    ensures
        r == spec_count_char_from(s@, c, 0),
{
    let n = s.unicode_len();
    let mut cnt: usize = 0;
    let mut i: usize = 0;
    while i < n
        invariant
            i <= n,
            n == s@.len(),
            cnt <= i,
            cnt + spec_count_char_from(s@, c, i as int) == spec_count_char_from(s@, c, 0),
        decreases n - i,
    {
        if s.get_char(i) == c {
            cnt += 1;
        }
        i += 1;
    }
    cnt
}

/// The first position of `c` in `s` at or after `from`, or the length of
/// `s` when there is none.
pub fn find_char(s: &str, c: char, from: usize) -> (r: usize)
    requires
        from <= s@.len(),
    ensures
        r == spec_find_char(s@, c, from as int),
{
    let n = s.unicode_len();
    let mut i: usize = from;
    while i < n
        invariant
            from <= i <= n,
            n == s@.len(),
            spec_find_char(s@, c, from as int) == spec_find_char(s@, c, i as int),
        decreases n - i,
    {
        if s.get_char(i) == c {
            return i;
        }
        i += 1;
    }
    n
}

// ---------------------------------------------------------------------------
// Map paths and download plans.
// ---------------------------------------------------------------------------

/// The path a map of this name is kept under.
pub fn map_path(map_name: &str) -> (r: String)
    ensures
        r@ == "./maps/"@ + map_name@ + ".bsp"@,
{
    let mut s = String::from_str("./maps/");
    s.append(map_name);
    s.append(".bsp");
    proof {
        assert(s@ =~= "./maps/"@ + map_name@ + ".bsp"@);
    }
    s
}

/// Why a download request cannot be resolved to a source.
#[derive(Clone, Copy, Debug, PartialEq, Eq, Structural)]
pub enum DownloadError {
    /// The map name is empty.
    InvalidMapName,
    /// The name mentions the workshop but does not split into exactly
    /// three slash-separated parts.
    UnparsableMapName,
    /// The name names no workshop item and no fallback server is
    /// configured.
    NoBackupSource,
}

/// Where a requested map is fetched from.  Carrying out the fetch is I/O
/// and stays with the unverified glue.
#[derive(Clone, Debug)]
pub enum DownloadPlan {
    /// Fetch the workshop item with this id, keeping the item's own
    /// folder structure.
    Workshop { id: String, use_full_path: bool },
    /// Fetch from the configured fallback server under the map's name.
    FastDl,
}

/// Resolves a download request to its source.
///
/// A name that mentions `workshop/` must split into exactly three
/// slash-separated parts, and the middle part is the workshop item id;
/// any other non-empty name goes to the fallback server when one is
/// configured.
pub fn download(map_name: &str, fast_dl: &str) -> (r: Result<DownloadPlan, DownloadError>)
    ensures
        match r {
            Ok(plan) => map_name@.len() > 0 && match plan {
                DownloadPlan::Workshop { id, use_full_path } => {
                    &&& spec_contains(map_name@, "workshop/"@)
                    &&& spec_count_char_from(map_name@, '/', 0) == 2
                    &&& id@ == map_name@.subrange(
                        spec_find_char(map_name@, '/', 0) + 1,
                        spec_find_char(map_name@, '/', spec_find_char(map_name@, '/', 0) + 1),
                    )
                    &&& use_full_path == true
                },
                DownloadPlan::FastDl => !spec_contains(map_name@, "workshop/"@) && fast_dl@.len()
                    > 0,
            },
            Err(e) => match e {
                DownloadError::InvalidMapName => map_name@.len() == 0,
                DownloadError::UnparsableMapName => map_name@.len() > 0 && spec_contains(
                    map_name@,
                    "workshop/"@,
                ) && spec_count_char_from(map_name@, '/', 0) != 2,
                DownloadError::NoBackupSource => map_name@.len() > 0 && !spec_contains(
                    map_name@,
                    "workshop/"@,
                ) && fast_dl@.len() == 0,
            },
        },
{
    if map_name.unicode_len() == 0 {
        return Err(DownloadError::InvalidMapName);
    }
    if str_contains(map_name, "workshop/") {
        let slashes = count_char(map_name, '/');
        if slashes != 2 {
            return Err(DownloadError::UnparsableMapName);
        }
        proof {
            lemma_find_counted_char(map_name@, '/', 0);
        }
        let p1 = find_char(map_name, '/', 0);
        proof {
            lemma_find_counted_char(map_name@, '/', p1 + 1);
        }
        let p2 = find_char(map_name, '/', p1 + 1);
        let id = map_name.substring_char(p1 + 1, p2).to_owned();
        Ok(DownloadPlan::Workshop { id, use_full_path: true })
    } else if fast_dl.unicode_len() > 0 {
        Ok(DownloadPlan::FastDl)
    } else {
        Err(DownloadError::NoBackupSource)
    }
}

} // verus!
