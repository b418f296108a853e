//! The variables derived from the metadata record before rendering: the
//! binary and feature option fragments of the release workflow, and the
//! repository URL with every trailing `.git` suffix removed.

use vstd::prelude::*;
use vstd::string::*;

verus! {

/// The `bin_option` variable: empty without a binary name, otherwise a
/// `--bin` flag fragment embedding it.
pub open spec fn bin_option_spec(bin: Option<Seq<char>>) -> Seq<char> {
    match bin {
        Option::None => Seq::empty(),
        Option::Some(b) => "--bin "@ + b,
    }
}

/// The `features_option` variable: empty without a feature set, otherwise a
/// `--features` flag fragment embedding it, quoted.
pub open spec fn features_option_spec(features: Option<Seq<char>>) -> Seq<char> {
    match features {
        Option::None => Seq::empty(),
        Option::Some(f) => "--features \""@ + f + "\""@,
    }
}

pub fn bin_option(bin: &Option<String>) -> (r: String)
    ensures
        r@ == bin_option_spec(bin.deep_view()),
{
    match bin {
        Option::None => String::new(),
        Option::Some(b) => String::from_str("--bin ").concat(b.as_str()),
    }
}

pub fn features_option(features: &Option<String>) -> (r: String)
    ensures
        r@ == features_option_spec(features.deep_view()),
{
    match features {
        Option::None => String::new(),
        Option::Some(f) => String::from_str("--features \"").concat(f.as_str()).concat("\""),
    }
}

/// True when `s` ends with the four characters `.git`.
pub open spec fn ends_with_git(s: Seq<char>) -> bool {
    s.len() >= 4 && s.subrange(s.len() - 4, s.len() as int) == ".git"@
}

/// `s` with every trailing `.git` suffix removed, as the `repository_url`
/// variable has it.
pub open spec fn strip_git_spec(s: Seq<char>) -> Seq<char>
    decreases s.len(),
{
    if ends_with_git(s) {
        strip_git_spec(s.subrange(0, s.len() - 4))
    } else {
        s
    }
}

/// Whether the first `end` characters of `s` end with `.git`.
fn ends_with_git_at(s: &str, end: usize) -> (r: bool)
    requires
        end <= s@.len(),
    ensures
        r == ends_with_git(s@.subrange(0, end as int)),
{
    proof {
        reveal_strlit(".git");
    }
    let ghost cur = s@.subrange(0, end as int);
    if end < 4 {
        return false;
    }
    let c1 = s.get_char(end - 4);
    let c2 = s.get_char(end - 3);
    let c3 = s.get_char(end - 2);
    let c4 = s.get_char(end - 1);
    let r = c1 == '.' && c2 == 'g' && c3 == 'i' && c4 == 't';
    proof {
        if r {
            assert(cur.subrange(cur.len() - 4, cur.len() as int) =~= ".git"@);
        } else if ends_with_git(cur) {
            let tail = cur.subrange(cur.len() - 4, cur.len() as int);
            assert(tail[0] == c1 && tail[1] == c2 && tail[2] == c3 && tail[3] == c4);
            assert(false);
        }
    }
    r
}

/// The `repository_url` variable: the repository URL with every trailing
/// `.git` suffix removed.
pub fn repository_url(repository: &str) -> (r: String)
    ensures
        r@ == strip_git_spec(repository@),
{
    let n = repository.unicode_len();
    let mut end: usize = n;
    proof {
        assert(repository@.subrange(0, n as int) =~= repository@);
    }
    loop
        invariant
            end <= n,
            n == repository@.len(),
            strip_git_spec(repository@) == strip_git_spec(repository@.subrange(0, end as int)),
        ensures
            end <= n,
            strip_git_spec(repository@) == repository@.subrange(0, end as int),
        decreases end,
    {
        if !ends_with_git_at(repository, end) {
            break;
        }
        proof {
            let cur = repository@.subrange(0, end as int);
            assert(cur.subrange(0, end - 4) =~= repository@.subrange(0, end - 4));
        }
        end = end - 4;
    }
    String::from_str(repository.substring_char(0, end))
}

} // verus!
