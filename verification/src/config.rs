//! Reading the profile: the stored configuration hands the remote API
//! credential and application name to every orchestrator call. Loading
//! and saving the file itself is the caller's concern; these functions
//! work on the loaded value.

use vstd::prelude::*;

use crate::types::Config;

verus! {

broadcast use vstd::seq_lib::group_seq_properties;

/// The API credential of a profile, required to be set.
pub fn get_api_key(config: &Config) -> (r: Result<String, String>)
    ensures
        match config.fly_api_key {
            Some(k) => r matches Ok(key) && key@ == k@,
            None => r matches Err(e) && e@ == "FLY_API_KEY not set in config file"@,
        },
{
    match &config.fly_api_key {
        Some(k) => Ok(k.clone()),
        None => Err("FLY_API_KEY not set in config file".to_owned()),
    }
}

/// The application name of a profile, required to be set.
pub fn get_app_name(config: &Config) -> (r: Result<String, String>)
    ensures
        match config.fly_app_name {
            Some(n) => r matches Ok(name) && name@ == n@,
            None => r matches Err(e) && e@ == "FLY_APP_NAME not set in config file"@,
        },
{
    match &config.fly_app_name {
        Some(n) => Ok(n.clone()),
        None => Err("FLY_APP_NAME not set in config file".to_owned()),
    }
}

/// The bearer authorization header value carrying the API credential.
pub fn bearer_header_value(api_key: &str) -> (r: String)
    ensures
        r@ == "Bearer "@ + api_key@,
{
    let mut s = "Bearer ".to_owned();
    s.append(api_key);
    s
}

/// Whitespace inside one line of command output.
pub open spec fn is_line_space(c: char) -> bool {
    c == ' ' || c == '\t' || c == '\r'
}

/// The index of the first line break in `s`, or its length if there is
/// none.
pub open spec fn first_nl(s: Seq<char>) -> int
    decreases s.len(),
{
    if s.len() == 0 {
        0
    } else if s[0] == '\n' {
        0
    } else {
        1 + first_nl(s.skip(1))
    }
}

/// A position before which no line break stands, and which is a line
/// break or the end, is the first line break.
pub proof fn lemma_first_nl_is(s: Seq<char>, e: int)
    requires
        0 <= e <= s.len(),
        forall|j: int| 0 <= j < e ==> s[j] != '\n',
        e < s.len() ==> s[e] == '\n',
    ensures
        first_nl(s) == e,
    decreases s.len(),
{
    if s.len() > 0 && s[0] != '\n' {
        assert forall|j: int| 0 <= j < e - 1 implies s.skip(1)[j] != '\n' by {
            assert(s.skip(1)[j] == s[j + 1]);
        }
        if e - 1 < s.skip(1).len() {
            assert(s.skip(1)[e - 1] == s[e]);
        }
        lemma_first_nl_is(s.skip(1), e - 1);
    }
}

/// Whether `m` occurs in `s` starting at position `k`.
pub open spec fn contains_at(s: Seq<char>, m: Seq<char>, k: int) -> bool {
    0 <= k && k + m.len() <= s.len() && s.subrange(k, k + m.len()) == m
}

/// Whether `m` occurs anywhere in `s`.
pub open spec fn seq_contains(s: Seq<char>, m: Seq<char>) -> bool {
    exists|k: int| contains_at(s, m, k)
}

/// Whether `needle` matches `haystack` at position `k`.
fn match_at(haystack: &str, needle: &str, k: usize) -> (r: bool)
    requires
        k + needle@.len() <= haystack@.len(),
    ensures
        r == contains_at(haystack@, needle@, k as int),
{
    let n = haystack.unicode_len();
    let m = needle.unicode_len();
    let mut j: usize = 0;
    while j < m
        invariant
            0 <= j <= m,
            m == needle@.len(),
            n == haystack@.len(),
            k + m <= n,
            forall|jj: int| 0 <= jj < j ==> haystack@[k + jj] == needle@[jj],
        decreases m - j,
    {
        if haystack.get_char(k + j) != needle.get_char(j) {
            proof {
                assert(haystack@.subrange(k as int, k + m)[j as int] != needle@[j as int]);
            }
            return false;
        }
        j = j + 1;
    }
    proof {
        assert(haystack@.subrange(k as int, k + m) =~= needle@);
    }
    true
}

/// Whether `needle` occurs in `haystack`.
pub fn str_contains(haystack: &str, needle: &str) -> (r: bool)
    ensures
        r == seq_contains(haystack@, needle@),
{
    let n = haystack.unicode_len();
    let m = needle.unicode_len();
    if m > n {
        return false;
    }
    if m == 0 {
        proof {
            assert(haystack@.subrange(0, 0) =~= needle@);
            assert(contains_at(haystack@, needle@, 0));
        }
        return true;
    }
    let mut k: usize = 0;
    while k <= n - m
        invariant
            0 <= k <= n - m + 1,
            1 <= m <= n,
            n == haystack@.len(),
            m == needle@.len(),
            forall|kk: int| 0 <= kk < k ==> !contains_at(haystack@, needle@, kk),
        decreases n - m + 1 - k,
    {
        if match_at(haystack, needle, k) {
            return true;
        }
        k = k + 1;
    }
    proof {
        assert forall|kk: int| !contains_at(haystack@, needle@, kk) by {}
    }
    false
}

/// The run of non-whitespace characters at the end of a line.
pub open spec fn spec_trailing_run(s: Seq<char>) -> Seq<char>
    decreases s.len(),
{
    if s.len() == 0 || is_line_space(s.last()) {
        Seq::empty()
    } else {
        spec_trailing_run(s.drop_last()) + seq![s.last()]
    }
}

/// The last whitespace-separated word of a line, if the line has one.
pub open spec fn spec_last_word(s: Seq<char>) -> Option<Seq<char>>
    decreases s.len(),
{
    if s.len() == 0 {
        None
    } else if is_line_space(s.last()) {
        spec_last_word(s.drop_last())
    } else {
        Some(spec_trailing_run(s))
    }
}

/// Whether a character is line whitespace.
fn is_space_char(c: char) -> (r: bool)
    ensures
        r == is_line_space(c),
{
    c == ' ' || c == '\t' || c == '\r'
}

/// The last whitespace-separated word of a line. Whitespace is the
/// space, tab and carriage-return characters.
pub fn last_word(line: &str) -> (r: Option<String>)
    ensures
        match r {
            Some(w) => spec_last_word(line@) == Some(w@),
            None => spec_last_word(line@) is None,
        },
{
    let n = line.unicode_len();
    let mut j: usize = n;
    while j > 0 && is_space_char(line.get_char(j - 1))
        invariant
            0 <= j <= n,
            n == line@.len(),
            spec_last_word(line@) == spec_last_word(line@.take(j as int)),
        decreases j,
    {
        proof {
            assert(line@.take(j as int).drop_last() =~= line@.take(j - 1));
            assert(line@.take(j as int).last() == line@[j - 1]);
        }
        j = j - 1;
    }
    if j == 0 {
        proof {
            assert(line@.take(0).len() == 0);
        }
        return None;
    }
    let mut i: usize = j;
    while i > 0 && !is_space_char(line.get_char(i - 1))
        invariant
            0 <= i <= j <= n,
            n == line@.len(),
            spec_trailing_run(line@.take(j as int)) =~= spec_trailing_run(line@.take(i as int))
                + line@.subrange(i as int, j as int),
        decreases i,
    {
        proof {
            assert(line@.take(i as int).drop_last() =~= line@.take(i - 1));
            assert(line@.take(i as int).last() == line@[i - 1]);
            assert(spec_trailing_run(line@.take(i as int)) =~= spec_trailing_run(
                line@.take(i - 1),
            ) + seq![line@[i - 1]]);
            assert(spec_trailing_run(line@.take(i - 1)) + line@.subrange(i - 1, j as int)
                =~= spec_trailing_run(line@.take(i as int)) + line@.subrange(i as int, j as int));
        }
        i = i - 1;
    }
    proof {
        if i > 0 {
            assert(line@.take(i as int).last() == line@[i - 1]);
            assert(spec_trailing_run(line@.take(i as int)) =~= Seq::<char>::empty());
        } else {
            assert(line@.take(0).len() == 0);
        }
        assert(spec_trailing_run(line@.take(j as int)) =~= line@.subrange(i as int, j as int));
        assert(line@.take(j as int).last() == line@[j - 1]);
        assert(spec_last_word(line@.take(j as int)) == Some(
            spec_trailing_run(line@.take(j as int)),
        ));
    }
    let w = line.substring_char(i, j).to_owned();
    Some(w)
}

/// The application name reported in command output: the last word of the
/// first line that contains `marker`; absent when no line does, or when
/// the marked line ends in nothing but whitespace.
pub open spec fn spec_reported_name(s: Seq<char>, marker: Seq<char>) -> Option<Seq<char>>
    decreases s.len(),
{
    let e = first_nl(s);
    if 0 <= e <= s.len() {
        let line = s.take(e);
        if seq_contains(line, marker) {
            spec_last_word(line)
        } else if e == s.len() {
            None
        } else {
            spec_reported_name(s.skip(e + 1), marker)
        }
    } else {
        None
    }
}

/// Finds the freshly created application's name in command output: the
/// last word of the first output line that announces a new application.
#[verifier::rlimit(50)]
pub fn find_created_app_name(output: &str) -> (r: Option<String>)
    ensures
        match r {
            Some(w) => spec_reported_name(output@, "New app created:"@) == Some(w@),
            None => spec_reported_name(output@, "New app created:"@) is None,
        },
{
    let n = output.unicode_len();
    let mut start: usize = 0;
    loop
        invariant
            0 <= start <= n,
            n == output@.len(),
            spec_reported_name(output@, "New app created:"@) == spec_reported_name(
                output@.skip(start as int),
                "New app created:"@,
            ),
        decreases n - start,
    {
        let ghost t = output@.skip(start as int);
        let mut e: usize = start;
        while e < n && output.get_char(e) != '\n'
            invariant
                start <= e <= n,
                n == output@.len(),
                forall|j: int| start <= j < e ==> output@[j] != '\n',
            decreases n - e,
        {
            e = e + 1;
        }
        proof {
            assert forall|j: int| 0 <= j < e - start implies t[j] != '\n' by {
                assert(t[j] == output@[start + j]);
            }
            if e < n {
                assert(t[e - start] == output@[e as int]);
            }
            lemma_first_nl_is(t, e - start);
            assert(t.take(e - start) =~= output@.subrange(start as int, e as int));
        }
        let line = output.substring_char(start, e);
        if str_contains(line, "New app created:") {
            return last_word(line);
        }
        if e == n {
            return None;
        }
        proof {
            assert(t.skip(e - start + 1) =~= output@.skip(e + 1));
        }
        start = e + 1;
    }
}

} // verus!
