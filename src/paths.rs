//! Names derived for files and repositories: the file a generated wrapper is
//! written to, and the directory a repository is cloned into.
use vstd::prelude::*;
use crate::naming::{snake_case, to_snake_case};
use crate::text::occurs_at;

verus! {

pub open spec fn rs_extension() -> Seq<char> {
    seq!['.', 'r', 's']
}

pub open spec fn git_extension() -> Seq<char> {
    seq!['.', 'g', 'i', 't']
}

/// The file name of the generated wrapper of the item `item_name`.
pub fn generated_file_name(item_name: &str) -> (r: String)
    ensures
        r@ == snake_case(item_name@) + rs_extension(),
{
    let mut name = to_snake_case(item_name);
    proof {
        reveal_strlit(".rs");
    }
    name.append(".rs");
    assert(".rs"@ =~= rs_extension());
    name
}

/// The index just after the last `/` of `s`, 0 where there is none.
pub open spec fn after_last_slash(s: Seq<char>, upto: int) -> int
    decreases upto,
{
    if upto <= 0 {
        0
    } else if s[upto - 1] == '/' {
        upto
    } else {
        after_last_slash(s, upto - 1)
    }
}

/// The name of the repository at `url`: its last path segment without the
/// `.git` ending, None where the segment does not end so.
pub open spec fn repository_name_of(url: Seq<char>) -> Option<Seq<char>> {
    let seg = url.subrange(after_last_slash(url, url.len() as int), url.len() as int);
    if occurs_at(seg, git_extension(), seg.len() - 4) {
        Some(seg.subrange(0, seg.len() - 4))
    } else {
        None
    }
}

proof fn lemma_after_last_slash(s: Seq<char>, upto: int)
    requires
        0 <= upto <= s.len(),
    ensures
        0 <= after_last_slash(s, upto) <= upto,
    decreases upto,
{
    if upto > 0 && s[upto - 1] != '/' {
        lemma_after_last_slash(s, upto - 1);
    }
}

/// The name of the repository at `url`, the directory that cloning it makes.
pub fn repository_name(url: &str) -> (r: Option<String>)
    ensures
        r matches Some(n) ==> repository_name_of(url@) == Some(n@),
        r is None ==> repository_name_of(url@) is None,
{
    let n = url.unicode_len();
    let mut start = n;
    while start > 0 && url.get_char(start - 1) != '/'
        invariant
            n == url@.len(),
            start <= n,
            after_last_slash(url@, n as int) == after_last_slash(url@, start as int),
        decreases start,
    {
        start = start - 1;
    }
    proof {
        lemma_after_last_slash(url@, n as int);
    }
    let seg = url.substring_char(start, n);
    let m = n - start;
    proof {
        reveal_strlit(".git");
    }
    assert(".git"@ =~= git_extension());
    if m >= 4 && crate::text::is_at(seg, ".git", m - 4) {
        Some(String::from_str(seg.substring_char(0, m - 4)))
    } else {
        None
    }
}

} // verus!
