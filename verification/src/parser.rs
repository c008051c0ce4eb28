//! The file-locator parser of the text prompt: an input of the form
//! `execute open <dir> <name> close` is turned into `execute <path>` by
//! searching the named directory for exactly one file whose name holds
//! `<name>`. Malformed input or an ambiguous search yields the command
//! text `none`, which the dispatcher treats as not well formed.
use vstd::prelude::*;

use walkdir::WalkDir;

use crate::text::contains_str;
use crate::text::contains_sub;
use crate::text::find_sub;
use crate::text::occurs_at;
use crate::text::split_char;
use crate::text::split_on;

verus! {

/// Index of the first occurrence of `n` in `s`; meaningful only when `s`
/// holds `n`.
pub open spec fn first_occ(s: Seq<char>, n: Seq<char>) -> int
    decreases s.len(),
{
    if occurs_at(s, n, 0) {
        0
    } else if s.len() == 0 {
        0
    } else {
        1 + first_occ(s.drop_first(), n)
    }
}

proof fn lemma_occurs_shift(s: Seq<char>, n: Seq<char>, j: int)
    requires
        s.len() > 0,
        0 <= j,
    ensures
        occurs_at(s.drop_first(), n, j) == occurs_at(s, n, j + 1),
{
    if j + 1 + n.len() <= s.len() {
        assert(s.drop_first().subrange(j, j + n.len() as int) =~= s.subrange(
            j + 1,
            j + 1 + n.len() as int,
        ));
    }
}

/// The first occurrence index is the unique one preceded by none.
proof fn lemma_first_occ_is(s: Seq<char>, n: Seq<char>, k: int)
    requires
        0 <= k,
        forall|j: int| 0 <= j < k ==> !occurs_at(s, n, j),
        occurs_at(s, n, k),
    ensures
        first_occ(s, n) == k,
    decreases s.len(),
{
    if occurs_at(s, n, 0) {
        assert(k == 0);
    } else {
        assert(k >= 1);
        assert(s.len() > 0) by {
            assert(k + n.len() <= s.len());
        }
        let t = s.drop_first();
        assert forall|j: int| 0 <= j < k - 1 implies !occurs_at(t, n, j) by {
            lemma_occurs_shift(s, n, j);
        }
        lemma_occurs_shift(s, n, k - 1);
        lemma_first_occ_is(t, n, k - 1);
    }
}

/// The text the locator searches in: what stands after the first `open`,
/// cut at the next `open` if one follows, then cut at the first `close`.
pub open spec fn segment_spec(s: Seq<char>) -> Seq<char> {
    let a = if contains_sub(s, "open"@) {
        s.subrange(first_occ(s, "open"@) + "open"@.len(), s.len() as int)
    } else {
        s
    };
    let b = if contains_sub(a, "open"@) {
        a.subrange(0, first_occ(a, "open"@))
    } else {
        a
    };
    if contains_sub(b, "close"@) {
        b.subrange(0, first_occ(b, "close"@))
    } else {
        b
    }
}

/// The directory word and the file-name word of the locator segment,
/// when the segment has them.
pub open spec fn located(s: Seq<char>) -> Option<(Seq<char>, Seq<char>)> {
    let ws = split_on(segment_spec(s), ' ');
    if ws.len() >= 3 {
        Some((ws[1], ws[2]))
    } else {
        None
    }
}

/// Relies on `walkdir::WalkDir`: walks the directory tree under `root`
/// and hands each entry out as its full path, its file name, and whether
/// it is a regular file. What comes back depends on the disk; the
/// selection among the entries is done by verified code.
#[verifier::external_body]
fn scan_dir(root: &str) -> (entries: Vec<(String, String, bool)>) {
    let mut out: Vec<(String, String, bool)> = Vec::new();
    for entry in WalkDir::new(root).into_iter().filter_map(|e| e.ok()) {
        let path = entry.path().to_string_lossy().to_string();
        let name = entry.file_name().to_string_lossy().to_string();
        let is_file = entry.file_type().is_file();
        out.push((path, name, is_file));
    }
    out
}

/// True of a directory entry the search accepts: a regular file whose
/// name holds the pattern.
pub open spec fn entry_matches(e: (String, String, bool), pat: Seq<char>) -> bool {
    e.2 && contains_sub(e.1@, pat)
}

/// How many entries the search accepts.
pub open spec fn match_count(s: Seq<(String, String, bool)>, pat: Seq<char>) -> int
    decreases s.len(),
{
    if s.len() == 0 {
        0
    } else {
        match_count(s.drop_last(), pat) + if entry_matches(s.last(), pat) {
            1int
        } else {
            0int
        }
    }
}

/// The accepted entry that stands last; meaningful only when one exists.
pub open spec fn last_match(s: Seq<(String, String, bool)>, pat: Seq<char>) -> (
    String,
    String,
    bool,
)
    decreases s.len(),
{
    if s.len() == 0 {
        arbitrary()
    } else if entry_matches(s.last(), pat) {
        s.last()
    } else {
        last_match(s.drop_last(), pat)
    }
}

/// The path of the one entry that is a regular file whose name holds
/// `pattern`; `none` when no entry or more than one matches.
pub fn select_unique(entries: &Vec<(String, String, bool)>, pattern: &str) -> (r: String)
    ensures
        match_count(entries@, pattern@) == 1 ==> r@ == last_match(entries@, pattern@).0@,
        match_count(entries@, pattern@) != 1 ==> r@ == "none"@,
{
    let n = entries.len();
    let mut count: usize = 0;
    let mut result = String::new();
    let mut i: usize = 0;
    proof {
        assert(entries@.take(0) =~= Seq::<(String, String, bool)>::empty());
    }
    while i < n
        invariant
            n == entries@.len(),
            0 <= i <= n,
            count <= i,
            count == match_count(entries@.take(i as int), pattern@),
            count > 0 ==> result@ == last_match(entries@.take(i as int), pattern@).0@,
        decreases n - i,
    {
        proof {
            assert(entries@.take(i + 1).drop_last() =~= entries@.take(i as int));
            assert(entries@.take(i + 1).last() == entries@[i as int]);
        }
        let is_file = entries[i].2;
        if is_file && contains_str(entries[i].1.as_str(), pattern) {
            result = entries[i].0.clone();
            count += 1;
        }
        i += 1;
    }
    proof {
        assert(entries@.take(n as int) =~= entries@);
    }
    if count == 1 {
        result
    } else {
        "none".to_owned()
    }
}

/// The simple file locator of the text prompt.
pub struct PromptParser {}

/// Resolves a locator input against the directory tree below
/// `working_dir`. The malformed cases are decided here and proved; when
/// the locator is well formed, the disk decides, and `select_unique`
/// holds the proved selection rule.
pub fn build_from_input(working_dir: String, input: String) -> (r: String)
    ensures
        contains_sub(input@, "open"@) != contains_sub(input@, "close"@) ==> r@ == "none"@,
        !contains_sub(input@, "open"@) && !contains_sub(input@, "close"@) ==> r@ == input@,
        contains_sub(input@, "open"@) && contains_sub(input@, "close"@) && located(input@) is None
            ==> r@ == "none"@,
{
    let co = contains_str(input.as_str(), "open");
    let cc = contains_str(input.as_str(), "close");
    if (co && !cc) || (!co && cc) {
        return "none".to_owned();
    }
    if !co {
        return input;
    }
    let iref = input.as_str();
    let ilen: usize = iref.unicode_len();
    let olen: usize = "open".unicode_len();
    let i = match find_sub(iref, "open") {
        Some(i) => i,
        None => {
            proof {
                assert(false);
            }
            return "none".to_owned();
        },
    };
    let rest = iref.substring_char(i + olen, ilen);
    proof {
        lemma_first_occ_is(input@, "open"@, i as int);
    }
    let rest2 = match find_sub(rest, "open") {
        Some(j) => {
            proof {
                lemma_first_occ_is(rest@, "open"@, j as int);
            }
            rest.substring_char(0, j)
        },
        None => rest,
    };
    let seg = match find_sub(rest2, "close") {
        Some(k) => {
            proof {
                lemma_first_occ_is(rest2@, "close"@, k as int);
            }
            rest2.substring_char(0, k)
        },
        None => rest2,
    };
    proof {
        assert(seg@ == segment_spec(input@));
    }
    let ws = split_char(seg, ' ');
    if ws.len() < 3 {
        return "none".to_owned();
    }
    proof {
        assert(ws.deep_view().len() == ws@.len());
        assert(located(input@) is Some);
    }
    let dir = ws[1].clone();
    let pat = ws[2].clone();
    let mut root = working_dir;
    root.append("/");
    root.append(dir.as_str());
    let entries = scan_dir(root.as_str());
    select_unique(&entries, pat.as_str())
}

impl PromptParser {
    /// Rewrites a prompt that asks for a service run: `execute …` becomes
    /// `execute <path>` through the file locator; any other input passes
    /// through unchanged.
    pub fn parse(working_dir: String, input: String) -> (r: String)
        ensures
            !contains_sub(input@, "execute"@) ==> r@ == input@,
            contains_sub(input@, "execute"@) ==> r@.len() >= "execute "@.len() && r@.subrange(
                0,
                "execute "@.len() as int,
            ) == "execute "@,
            contains_sub(input@, "execute"@) && (contains_sub(input@, "open"@) != contains_sub(
                input@,
                "close"@,
            )) ==> r@ == "execute "@ + "none"@,
            contains_sub(input@, "execute"@) && !contains_sub(input@, "open"@) && !contains_sub(
                input@,
                "close"@,
            ) ==> r@ == "execute "@ + input@,
            contains_sub(input@, "execute"@) && contains_sub(input@, "open"@) && contains_sub(
                input@,
                "close"@,
            ) && located(input@) is None ==> r@ == "execute "@ + "none"@,
    {
        if contains_str(input.as_str(), "execute") {
            let built = build_from_input(working_dir, input);
            let mut r = "execute ".to_owned();
            r.append(built.as_str());
            proof {
                assert(r@.subrange(0, "execute "@.len() as int) =~= "execute "@);
            }
            r
        } else {
            input
        }
    }
}

} // verus!
