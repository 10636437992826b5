//! Issue references: `owner/repo` followed by `/issues/N`, `/N` or `#N`,
//! optionally as the path of a URL.
use vstd::prelude::*;

verus! {

/// One issue of one repository: `owner/repo#issue_number`.
#[derive(Debug, PartialEq, Eq)]
pub struct RepoIssue {
    pub owner: String,
    pub repo: String,
    pub issue_number: u64,
}

impl View for RepoIssue {
    type V = (Seq<char>, Seq<char>, u64);

    open spec fn view(&self) -> (Seq<char>, Seq<char>, u64) {
        (self.owner@, self.repo@, self.issue_number)
    }
}

/// A parse outcome seen through the view of the issue.
pub open spec fn outcome(r: Result<RepoIssue, ParseError>) -> Result<(Seq<char>, Seq<char>, u64), ParseError> {
    match r {
        Ok(x) => Ok(x@),
        Err(e) => Err(e),
    }
}

/// Why a text is not an issue reference.
#[derive(Debug, Clone, Copy, PartialEq, Eq, Structural)]
pub enum ParseError {
    /// The text has none of the accepted forms.
    InvalidReference,
    /// The text has an accepted form, but its issue number does not fit in 64 bits.
    IssueNumberTooLarge,
}

/// Whether `c` is an ASCII decimal digit.
pub open spec fn is_digit(c: char) -> bool {
    '0' <= c && c <= '9'
}

/// The value of one decimal digit.
pub open spec fn digit_value(c: char) -> nat {
    (c as int - '0' as int) as nat
}

/// The number that a string of decimal digits denotes.
pub open spec fn decimal_value(d: Seq<char>) -> nat
    decreases d.len(),
{
    if d.len() == 0 {
        0
    } else {
        decimal_value(d.drop_last()) * 10 + digit_value(d.last())
    }
}

/// A non-empty run of decimal digits.
pub open spec fn is_decimal(d: Seq<char>) -> bool {
    d.len() > 0 && forall|i: int| 0 <= i < d.len() ==> is_digit(#[trigger] d[i])
}

/// Whether `s` holds a `/`.
pub open spec fn has_slash(s: Seq<char>) -> bool {
    exists|i: int| 0 <= i < s.len() && s[i] == '/'
}

/// Whether `s` holds a `/` or a `#`.
pub open spec fn has_slash_or_hash(s: Seq<char>) -> bool {
    exists|i: int| 0 <= i < s.len() && (s[i] == '/' || s[i] == '#')
}

/// The separator `/issues/`.
pub open spec fn issues_separator() -> Seq<char> {
    seq!['/', 'i', 's', 's', 'u', 'e', 's', '/']
}

/// The separators accepted between the repository and the issue number.
pub open spec fn is_separator(sep: Seq<char>) -> bool {
    sep == seq!['/'] || sep == issues_separator() || sep == seq!['#']
}

/// `p` is `owner/repo`, then a separator, then the digits of the issue
/// number: the owner and the repository are non-empty runs without `/` or
/// `#`.
pub open spec fn is_reference_path(
    p: Seq<char>,
    owner: Seq<char>,
    repo: Seq<char>,
    sep: Seq<char>,
    digits: Seq<char>,
) -> bool {
    &&& owner.len() > 0 && !has_slash_or_hash(owner)
    &&& repo.len() > 0 && !has_slash_or_hash(repo)
    &&& is_separator(sep)
    &&& is_decimal(digits)
    &&& p == owner + seq!['/'] + repo + sep + digits
}

/// What a reference path denotes: its owner, repository and issue number;
/// `InvalidReference` where it has no such form or its issue number is zero
/// (issues are numbered from one), `IssueNumberTooLarge` where the number does
/// not fit in 64 bits.
pub open spec fn path_reference(p: Seq<char>) -> Result<(Seq<char>, Seq<char>, u64), ParseError> {
    if exists|o: Seq<char>, r: Seq<char>, s: Seq<char>, d: Seq<char>|
        is_reference_path(p, o, r, s, d) {
        let (o, r, s, d) = choose|o: Seq<char>, r: Seq<char>, s: Seq<char>, d: Seq<char>|
            is_reference_path(p, o, r, s, d);
        if decimal_value(d) == 0 {
            Err(ParseError::InvalidReference)
        } else if decimal_value(d) <= u64::MAX {
            Ok((o, r, decimal_value(d) as u64))
        } else {
            Err(ParseError::IssueNumberTooLarge)
        }
    } else {
        Err(ParseError::InvalidReference)
    }
}

/// Where the parts of a reference path stand in it.
proof fn lemma_reference_layout(
    p: Seq<char>,
    o: Seq<char>,
    r: Seq<char>,
    s: Seq<char>,
    d: Seq<char>,
)
    requires
        is_reference_path(p, o, r, s, d),
    ensures
        o.len() + 1 + r.len() + s.len() + d.len() == p.len(),
        p[o.len() as int] == '/',
        forall|k: int| 0 <= k < o.len() ==> p[k] != '/' && p[k] != '#',
        forall|k: int| o.len() < k < o.len() + 1 + r.len() ==> p[k] != '/' && p[k] != '#',
        p.subrange(0, o.len() as int) == o,
        p.subrange(o.len() + 1int, o.len() + 1int + r.len()) == r,
        p.subrange(o.len() + 1int + r.len(), p.len() as int) == s + d,
        p[o.len() + 1int + r.len()] == s[0],
{
    let a = o.len() as int;
    let b = a + 1 + r.len();
    assert(p.subrange(0, a) =~= o);
    assert(p.subrange(a + 1, b) =~= r);
    assert(p.subrange(b, p.len() as int) =~= s + d);
    assert forall|k: int| 0 <= k < a implies p[k] != '/' && p[k] != '#' by {
        assert(p[k] == o[k]);
    }
    assert forall|k: int| a < k < b implies p[k] != '/' && p[k] != '#' by {
        assert(p[k] == r[k - a - 1]);
    }
}

/// A reference path has one reading only.
pub proof fn lemma_reference_unique(
    p: Seq<char>,
    o1: Seq<char>,
    r1: Seq<char>,
    s1: Seq<char>,
    d1: Seq<char>,
    o2: Seq<char>,
    r2: Seq<char>,
    s2: Seq<char>,
    d2: Seq<char>,
)
    requires
        is_reference_path(p, o1, r1, s1, d1),
        is_reference_path(p, o2, r2, s2, d2),
    ensures
        o1 == o2 && r1 == r2 && s1 == s2 && d1 == d2,
{
    lemma_reference_layout(p, o1, r1, s1, d1);
    lemma_reference_layout(p, o2, r2, s2, d2);
    assert(o1.len() == o2.len());
    assert(r1.len() == r2.len());
    let t = s1 + d1;
    assert(t == s2 + d2);
    reveal_with_fuel(is_separator, 1);
    if s1.len() != s2.len() {
        // one is `/`, the other `/issues/`: the digits cannot start with `i`
        if s1 == seq!['/'] {
            assert(t[1] == d1[0]);
            assert(t[1] == s2[1]);
        } else {
            assert(t[1] == d2[0]);
            assert(t[1] == s1[1]);
        }
    }
    assert(s1 =~= t.subrange(0, s1.len() as int));
    assert(s2 =~= t.subrange(0, s2.len() as int));
    assert(d1 =~= t.subrange(s1.len() as int, t.len() as int));
    assert(d2 =~= t.subrange(s2.len() as int, t.len() as int));
}

/// The separator and digits that follow the repository of a reading.
proof fn lemma_tail_reading(p: Seq<char>, j: int, s: Seq<char>, d: Seq<char>)
    requires
        0 <= j <= p.len(),
        p.subrange(j, p.len() as int) == s + d,
        is_separator(s),
        is_decimal(d),
    ensures
        s[0] == p[j],
        s == seq!['#'] || s == seq!['/'] ==> d == p.subrange(j + 1, p.len() as int),
        s == issues_separator() ==> j + 8 <= p.len() && p.subrange(j, j + 8) == s
            && d == p.subrange(j + 8, p.len() as int),
        s == seq!['/'] ==> is_decimal(p.subrange(j + 1, p.len() as int)),
        s == issues_separator() ==> !is_decimal(p.subrange(j + 1, p.len() as int)),
{
    let t = s + d;
    let q = p.subrange(j, p.len() as int);
    assert(s.len() >= 1);
    assert(t.len() == q.len());
    assert(t[0] == q[0]);
    if s == seq!['#'] || s == seq!['/'] {
        assert forall|k: int| 0 <= k < d.len() implies d[k] == p.subrange(j + 1, p.len() as int)[k] by {
            assert(t[k + 1] == q[k + 1]);
        }
        assert(d =~= p.subrange(j + 1, p.len() as int));
    }
    if s == issues_separator() {
        assert(p.subrange(j, j + 8) =~= s);
        assert forall|k: int| 0 <= k < d.len() implies d[k] == p.subrange(j + 8, p.len() as int)[k] by {
            assert(t[k + 8] == q[k + 8]);
        }
        assert(d =~= p.subrange(j + 8, p.len() as int));
        assert(p.subrange(j + 1, p.len() as int)[0] == 'i');
    }
}

/// A reading of a reference path is the one that `path_reference` picks.
proof fn lemma_reading_is_chosen(p: Seq<char>, o: Seq<char>, r: Seq<char>, s: Seq<char>, d: Seq<char>)
    requires
        is_reference_path(p, o, r, s, d),
    ensures
        path_reference(p) == (if decimal_value(d) == 0 {
            Err(ParseError::InvalidReference)
        } else if decimal_value(d) <= u64::MAX {
            Ok::<(Seq<char>, Seq<char>, u64), ParseError>((o, r, decimal_value(d) as u64))
        } else {
            Err(ParseError::IssueNumberTooLarge)
        }),
{
    let (o2, r2, s2, d2) = choose|o2: Seq<char>, r2: Seq<char>, s2: Seq<char>, d2: Seq<char>|
        is_reference_path(p, o2, r2, s2, d2);
    lemma_reference_unique(p, o, r, s, d, o2, r2, s2, d2);
}

enum Digits {
    Invalid,
    TooLarge,
    Value(u64),
}

/// Reads `s[from..]` as a decimal number.
fn read_decimal(s: &str, from: usize) -> (r: Digits)
    requires
        from <= s@.len(),
    ensures
        ({
            let d = s@.subrange(from as int, s@.len() as int);
            match r {
                Digits::Invalid => !is_decimal(d),
                Digits::TooLarge => is_decimal(d) && decimal_value(d) > u64::MAX,
                Digits::Value(v) => is_decimal(d) && v == decimal_value(d),
            }
        }),
{
    let n = s.unicode_len();
    if from == n {
        return Digits::Invalid;
    }
    let mut k: usize = from;
    let mut acc: u64 = 0;
    let mut too_large = false;
    while k < n
        invariant
            n == s@.len(),
            from <= k <= n,
            forall|i: int| from <= i < k ==> is_digit(#[trigger] s@[i]),
            !too_large ==> acc == decimal_value(s@.subrange(from as int, k as int)),
            too_large ==> decimal_value(s@.subrange(from as int, k as int)) > u64::MAX,
        decreases n - k,
    {
        let c = s.get_char(k);
        if !('0' <= c && c <= '9') {
            assert(s@.subrange(from as int, n as int)[k - from] == c);
            return Digits::Invalid;
        }
        let dig = (c as u32 - '0' as u32) as u64;
        let ghost prev = s@.subrange(from as int, k as int);
        let ghost next = s@.subrange(from as int, k + 1);
        assert(next.drop_last() =~= prev);
        assert(next.last() == c);
        if !too_large {
            match acc.checked_mul(10) {
                Some(m) => match m.checked_add(dig) {
                    Some(v) => {
                        acc = v;
                    },
                    None => {
                        too_large = true;
                    },
                },
                None => {
                    too_large = true;
                },
            }
        }
        k = k + 1;
    }
    proof {
        let d = s@.subrange(from as int, n as int);
        assert forall|i: int| 0 <= i < d.len() implies is_digit(#[trigger] d[i]) by {
            assert(d[i] == s@[from + i]);
        }
    }
    if too_large {
        Digits::TooLarge
    } else {
        Digits::Value(acc)
    }
}

/// Whether `s[at..at + 8]` is `/issues/`.
fn has_issues_separator(s: &str, at: usize) -> (r: bool)
    requires
        at <= s@.len(),
    ensures
        r == (at + 8 <= s@.len() && s@.subrange(at as int, at + 8) == issues_separator()),
{
    let n = s.unicode_len();
    let sep = "/issues/";
    proof {
        reveal_strlit("/issues/");
    }
    if n - at < 8 {
        return false;
    }
    let mut k: usize = 0;
    while k < 8
        invariant
            n == s@.len(),
            at + 8 <= n,
            sep@ == issues_separator(),
            k <= 8,
            forall|i: int| 0 <= i < k ==> s@[at + i] == issues_separator()[i],
        decreases 8 - k,
    {
        if s.get_char(at + k) != sep.get_char(k) {
            assert(s@.subrange(at as int, at + 8)[k as int] != issues_separator()[k as int]);
            return false;
        }
        k = k + 1;
    }
    assert(s@.subrange(at as int, at + 8) =~= issues_separator());
    true
}

impl RepoIssue {
    /// Reads a reference path: `owner/repo/issues/N`, `owner/repo/N` or
    /// `owner/repo#N`.
    pub fn from_path(path: &str) -> (r: Result<RepoIssue, ParseError>)
        ensures
            outcome(r) == path_reference(path@),
    {
        let ghost p = path@;
        let n = path.unicode_len();
        let mut i: usize = 0;
        while i < n && path.get_char(i) != '/' && path.get_char(i) != '#'
            invariant
                p == path@,
                n == p.len(),
                i <= n,
                forall|k: int| 0 <= k < i ==> p[k] != '/' && p[k] != '#',
            decreases n - i,
        {
            i = i + 1;
        }
        if i == 0 || i == n || path.get_char(i) != '/' {
            proof {
                if exists|o: Seq<char>, r: Seq<char>, s: Seq<char>, d: Seq<char>|
                    is_reference_path(p, o, r, s, d) {
                    let (o, r, s, d) = choose|o: Seq<char>, r: Seq<char>, s: Seq<char>, d: Seq<char>|
                        is_reference_path(p, o, r, s, d);
                    lemma_reference_layout(p, o, r, s, d);
                    if o.len() > i {
                        assert(p[i as int] == o[i as int]);
                        assert(!has_slash_or_hash(o));
                    }
                }
            }
            return Err(ParseError::InvalidReference);
        }
        let mut j: usize = i + 1;
        while j < n && path.get_char(j) != '/' && path.get_char(j) != '#'
            invariant
                p == path@,
                n == p.len(),
                i < j <= n,
                forall|k: int| i < k < j ==> p[k] != '/' && p[k] != '#',
            decreases n - j,
        {
            j = j + 1;
        }
        let ghost o = p.subrange(0, i as int);
        let ghost rp = p.subrange(i + 1, j as int);
        proof {
            assert(!has_slash_or_hash(o)) by {
                if has_slash_or_hash(o) {
                    let k = choose|k: int| 0 <= k < o.len() && (o[k] == '/' || o[k] == '#');
                    assert(p[k] == o[k]);
                }
            }
            assert(!has_slash_or_hash(rp)) by {
                if has_slash_or_hash(rp) {
                    let k = choose|k: int| 0 <= k < rp.len() && (rp[k] == '/' || rp[k] == '#');
                    assert(p[i + 1 + k] == rp[k]);
                }
            }
            // every reading splits where the two loops stopped
            assert forall|o2: Seq<char>, r2: Seq<char>, s2: Seq<char>, d2: Seq<char>|
                is_reference_path(p, o2, r2, s2, d2) implies o2 == o && r2 == rp && j < n
                && p.subrange(j as int, n as int) == s2 + d2 by {
                lemma_reference_layout(p, o2, r2, s2, d2);
                if o2.len() > i {
                    assert(p[i as int] == o2[i as int]);
                    assert(!has_slash_or_hash(o2));
                }
                assert(o2.len() == i);
                let b = i + 1 + r2.len();
                assert(b < n);
                if b > j {
                    if j < n {
                        assert(p[j as int] == r2[j - i - 1]);
                        assert(!has_slash_or_hash(r2));
                    }
                }
                assert(b == j);
            }
        }
        if j == i + 1 || j == n {
            return Err(ParseError::InvalidReference);
        }
        let c = path.get_char(j);
        let ghost mut sep: Seq<char> = seq!['#'];
        let ghost mut from: int = j + 1;
        let digits = if c == '#' {
            read_decimal(path, j + 1)
        } else if c == '/' {
            proof {
                sep = seq!['/'];
            }
            let short = read_decimal(path, j + 1);
            match short {
                Digits::Invalid => {
                    if has_issues_separator(path, j) {
                        proof {
                            sep = issues_separator();
                            from = j + 8;
                        }
                        read_decimal(path, j + 8)
                    } else {
                        Digits::Invalid
                    }
                },
                _ => short,
            }
        } else {
            Digits::Invalid
        };
        let ghost d = p.subrange(from, n as int);
        match digits {
            Digits::Invalid => {
                proof {
                    assert forall|o2: Seq<char>, r2: Seq<char>, s2: Seq<char>, d2: Seq<char>|
                        !is_reference_path(p, o2, r2, s2, d2) by {
                        if is_reference_path(p, o2, r2, s2, d2) {
                            lemma_tail_reading(p, j as int, s2, d2);
                        }
                    }
                }
                Err(ParseError::InvalidReference)
            },
            Digits::TooLarge => {
                proof {
                    assert(p =~= o + seq!['/'] + rp + sep + d);
                    lemma_reading_is_chosen(p, o, rp, sep, d);
                }
                Err(ParseError::IssueNumberTooLarge)
            },
            Digits::Value(v) => {
                proof {
                    assert(p =~= o + seq!['/'] + rp + sep + d);
                    lemma_reading_is_chosen(p, o, rp, sep, d);
                }
                if v == 0 {
                    return Err(ParseError::InvalidReference);
                }
                let owner = String::from_str(path.substring_char(0, i));
                let repo = String::from_str(path.substring_char(i + 1, j));
                Ok(RepoIssue { owner, repo, issue_number: v })
            },
        }
    }
}

/// `s` without the `/` characters it starts with.
pub open spec fn trim_leading_slashes(s: Seq<char>) -> Seq<char>
    decreases s.len(),
{
    if s.len() > 0 && s[0] == '/' {
        trim_leading_slashes(s.drop_first())
    } else {
        s
    }
}

/// The host prefix under which a reference may be written without a scheme.
pub open spec fn github_host() -> Seq<char> {
    seq!['g', 'i', 't', 'h', 'u', 'b', '.', 'c', 'o', 'm', '/']
}

/// The scheme put before a reference written without one.
pub open spec fn https_scheme() -> Seq<char> {
    seq!['h', 't', 't', 'p', 's', ':', '/', '/']
}

/// Whether `s` begins with `prefix`.
pub open spec fn begins_with(s: Seq<char>, prefix: Seq<char>) -> bool {
    prefix.len() <= s.len() && s.subrange(0, prefix.len() as int) == prefix
}

/// The path of the URL that the `url` crate reads from `text`; `None` where
/// it reads none.
pub uninterp spec fn url_path_of(text: Seq<char>) -> Option<Seq<char>>;

/// Relies on `url::Url::parse` and `url::Url::path`: the path of the absolute
/// URL that `text` spells. The parser wants a scheme, which ends in `:`; text
/// without a `:` is never a URL.
#[verifier::external_body]
fn url_path(text: &str) -> (r: Option<String>)
    ensures
        match r {
            Some(p) => text@.contains(':') && url_path_of(text@) == Some(p@),
            None => !text@.contains(':') || url_path_of(text@).is_none(),
        },
{
    url::Url::parse(text).ok().map(|u| u.path().to_string())
}

/// The path of the URL that `text` spells, if it spells one: text without a
/// `:` spells none.
pub open spec fn url_reading(text: Seq<char>) -> Option<Seq<char>> {
    if text.contains(':') {
        url_path_of(text)
    } else {
        None
    }
}

/// What `RepoIssue::parse` yields on `input`: a URL is read by its path, a
/// reference that starts with `github.com/` as the URL under `https://`, and
/// anything else as a reference path.
pub open spec fn parse_spec(input: Seq<char>) -> Result<(Seq<char>, Seq<char>, u64), ParseError> {
    match url_reading(input) {
        Some(u) => path_reference(trim_leading_slashes(u)),
        None => if begins_with(input, github_host()) {
            match url_reading(https_scheme() + input) {
                Some(u) => path_reference(trim_leading_slashes(u)),
                None => Err(ParseError::InvalidReference),
            }
        } else {
            path_reference(input)
        },
    }
}

/// Whether `s` begins with `prefix`.
fn starts_with_text(s: &str, prefix: &str) -> (r: bool)
    ensures
        r == begins_with(s@, prefix@),
{
    let n = s.unicode_len();
    let m = prefix.unicode_len();
    if m > n {
        return false;
    }
    let mut k: usize = 0;
    while k < m
        invariant
            n == s@.len(),
            m == prefix@.len(),
            m <= n,
            k <= m,
            forall|i: int| 0 <= i < k ==> s@[i] == prefix@[i],
        decreases m - k,
    {
        if s.get_char(k) != prefix.get_char(k) {
            assert(s@.subrange(0, m as int)[k as int] != prefix@[k as int]);
            return false;
        }
        k = k + 1;
    }
    assert(s@.subrange(0, m as int) =~= prefix@);
    true
}

impl RepoIssue {
    /// Reads the path of an issue URL: leading slashes are dropped, the rest
    /// is a reference path.
    pub fn from_url_path(path: &str) -> (r: Result<RepoIssue, ParseError>)
        ensures
            outcome(r) == path_reference(trim_leading_slashes(path@)),
    {
        let n = path.unicode_len();
        let mut k: usize = 0;
        assert(path@.subrange(0, n as int) =~= path@);
        while k < n && path.get_char(k) == '/'
            invariant
                n == path@.len(),
                k <= n,
                trim_leading_slashes(path@) == trim_leading_slashes(path@.subrange(k as int, n as int)),
            decreases n - k,
        {
            proof {
                let t = path@.subrange(k as int, n as int);
                assert(t.drop_first() =~= path@.subrange(k + 1, n as int));
            }
            k = k + 1;
        }
        proof {
            let t = path@.subrange(k as int, n as int);
            if t.len() > 0 {
                assert(t[0] == path@[k as int]);
            }
        }
        RepoIssue::from_path(path.substring_char(k, n))
    }

    /// Parses an issue reference written as a URL
    /// (`https://github.com/owner/repo/issues/N`), as a URL without its
    /// scheme (`github.com/owner/repo/issues/N`), or as a reference path
    /// (`owner/repo/issues/N`, `owner/repo/N`, `owner/repo#N`).
    pub fn parse(input: &str) -> (r: Result<RepoIssue, ParseError>)
        ensures
            outcome(r) == parse_spec(input@),
    {
        if let Some(path) = url_path(input) {
            return RepoIssue::from_url_path(path.as_str());
        }
        let host = "github.com/";
        proof {
            reveal_strlit("github.com/");
            assert(host@ =~= github_host());
        }
        if starts_with_text(input, host) {
            let scheme = "https://";
            proof {
                reveal_strlit("https://");
                assert(scheme@ =~= https_scheme());
            }
            let url = String::from_str(scheme).concat(input);
            match url_path(url.as_str()) {
                Some(path) => RepoIssue::from_url_path(path.as_str()),
                None => Err(ParseError::InvalidReference),
            }
        } else {
            RepoIssue::from_path(input)
        }
    }

    /// The repository's full name, `owner/repo`.
    pub fn full_repo_name(&self) -> (r: String)
        ensures
            r@ == self.owner@ + seq!['/'] + self.repo@,
    {
        let slash = "/";
        proof {
            reveal_strlit("/");
        }
        String::from_str(self.owner.as_str()).concat(slash).concat(self.repo.as_str())
    }
}

/// Text that holds no `:` and does not start with `github.com/` is read as a
/// reference path.
proof fn lemma_plain_text(input: Seq<char>)
    requires
        !input.contains(':'),
        !begins_with(input, github_host()),
    ensures
        parse_spec(input) == path_reference(input),
{
}

/// A reference path whose owner is not `github.com` does not start with
/// `github.com/`.
proof fn lemma_not_host(p: Seq<char>, o: Seq<char>, r: Seq<char>, s: Seq<char>, d: Seq<char>)
    requires
        is_reference_path(p, o, r, s, d),
        o != github_host().drop_last(),
    ensures
        !begins_with(p, github_host()),
{
    lemma_reference_layout(p, o, r, s, d);
    if begins_with(p, github_host()) {
        let h = github_host();
        assert(p[10] == h[10]);
        if o.len() < 10 {
            assert(p[o.len() as int] == h[o.len() as int]);
        }
        assert(o.len() == 10);
        assert(o =~= h.drop_last()) by {
            assert forall|k: int| 0 <= k < 10 implies o[k] == h[k] by {
                assert(p[k] == h[k]);
                assert(p.subrange(0, o.len() as int)[k] == p[k]);
            }
        }
    }
}

/// A reference path of one issue parses to that issue, as text without `:`.
proof fn lemma_path_form(owner: Seq<char>, repo: Seq<char>, sep: Seq<char>, digits: Seq<char>)
    requires
        owner.len() > 0 && !has_slash_or_hash(owner) && !owner.contains(':'),
        repo.len() > 0 && !has_slash_or_hash(repo) && !repo.contains(':'),
        owner != github_host().drop_last(),
        is_separator(sep),
        is_decimal(digits),
        0 < decimal_value(digits) <= u64::MAX,
    ensures
        ({
            let p = owner + seq!['/'] + repo + sep + digits;
            let issue = Ok::<(Seq<char>, Seq<char>, u64), ParseError>(
                (owner, repo, decimal_value(digits) as u64),
            );
            &&& !p.contains(':')
            &&& path_reference(p) == issue
            &&& parse_spec(p) == issue
        }),
{
    let p = owner + seq!['/'] + repo + sep + digits;
    assert(is_reference_path(p, owner, repo, sep, digits));
    lemma_not_host(p, owner, repo, sep, digits);
    lemma_reference_layout(p, owner, repo, sep, digits);
    assert(!p.contains(':')) by {
        if p.contains(':') {
            let k = choose|k: int| 0 <= k < p.len() && p[k] == ':';
            let a = owner.len() as int;
            let b = a + 1 + repo.len();
            if k < a {
                assert(p[k] == owner[k]);
            } else if a < k < b {
                assert(p[k] == repo[k - a - 1]);
            } else if k >= b + sep.len() {
                assert(p[k] == digits[k - b - sep.len()]);
                assert(is_digit(digits[k - b - sep.len()]));
            } else if k >= b {
                assert(p[k] == sep[k - b]);
            }
        }
    }
    lemma_plain_text(p);
    lemma_reading_is_chosen(p, owner, repo, sep, digits);
}

/// One issue, its number from one up, written in each accepted form, parses
/// to that issue: the three
/// reference paths `owner/repo/issues/N`, `owner/repo/N` and `owner/repo#N`
/// always, and the URL `https://github.com/owner/repo/issues/N` and its form
/// without a scheme wherever the URL parser reads their path as
/// `/owner/repo/issues/N`. An owner or repository that holds `:`, or the
/// owner `github.com`, would make a path read as a URL.
pub proof fn lemma_forms_agree(owner: Seq<char>, repo: Seq<char>, digits: Seq<char>)
    requires
        owner.len() > 0 && !has_slash_or_hash(owner) && !owner.contains(':'),
        repo.len() > 0 && !has_slash_or_hash(repo) && !repo.contains(':'),
        owner != github_host().drop_last(),
        is_decimal(digits),
        0 < decimal_value(digits) <= u64::MAX,
    ensures
        ({
            let issue = Ok::<(Seq<char>, Seq<char>, u64), ParseError>(
                (owner, repo, decimal_value(digits) as u64),
            );
            let long = owner + seq!['/'] + repo + issues_separator() + digits;
            let domain = github_host() + long;
            let full = https_scheme() + domain;
            &&& parse_spec(long) == issue
            &&& parse_spec(owner + seq!['/'] + repo + seq!['/'] + digits) == issue
            &&& parse_spec(owner + seq!['/'] + repo + seq!['#'] + digits) == issue
            &&& url_path_of(full) == Some(seq!['/'] + long) ==> parse_spec(domain) == issue
            &&& url_path_of(full) == Some(seq!['/'] + long) ==> parse_spec(full) == issue
        }),
{
    let long = owner + seq!['/'] + repo + issues_separator() + digits;
    let domain = github_host() + long;
    let full = https_scheme() + domain;
    lemma_path_form(owner, repo, issues_separator(), digits);
    lemma_path_form(owner, repo, seq!['/'], digits);
    lemma_path_form(owner, repo, seq!['#'], digits);
    if url_path_of(full) == Some(seq!['/'] + long) {
        let u = seq!['/'] + long;
        assert(u.drop_first() =~= long);
        assert(long[0] == owner[0]);
        assert(!has_slash_or_hash(owner));
        assert(trim_leading_slashes(u) == trim_leading_slashes(long));
        assert(!domain.contains(':')) by {
            if domain.contains(':') {
                let k = choose|k: int| 0 <= k < domain.len() && domain[k] == ':';
                if k < 11 {
                    assert(domain[k] == github_host()[k]);
                } else {
                    assert(long[k - 11] == domain[k]);
                }
            }
        }
        assert(domain.subrange(0, 11) =~= github_host());
        assert(full[5] == ':');
    }
}

/// What a reference path yields has a non-empty owner and a non-empty
/// repository, neither holding `/` or `#`, and an issue number above zero;
/// it reads back as that path with one of the separators and the issue
/// number's digits.
pub proof fn lemma_parsed_parts(p: Seq<char>)
    requires
        path_reference(p) is Ok,
    ensures
        ({
            let (owner, repo, n) = path_reference(p)->Ok_0;
            &&& owner.len() > 0 && !has_slash_or_hash(owner)
            &&& repo.len() > 0 && !has_slash_or_hash(repo)
            &&& exists|sep: Seq<char>, d: Seq<char>|
                is_separator(sep) && is_decimal(d) && decimal_value(d) == n && n > 0
                && p == owner + seq!['/'] + repo + sep + d
        }),
{
    let (o, r, s, d) = choose|o: Seq<char>, r: Seq<char>, s: Seq<char>, d: Seq<char>|
        is_reference_path(p, o, r, s, d);
    lemma_reading_is_chosen(p, o, r, s, d);
}

/// Text with no `/`, or with no digit, is no issue reference, wherever it is
/// read as a reference path: it holds no `:` and does not start with
/// `github.com/`.
pub proof fn lemma_rejects_incomplete(input: Seq<char>)
    requires
        !input.contains(':'),
        !begins_with(input, github_host()),
        !has_slash(input) || forall|i: int| 0 <= i < input.len() ==> !is_digit(#[trigger] input[i]),
    ensures
        parse_spec(input) == Err::<(Seq<char>, Seq<char>, u64), ParseError>(ParseError::InvalidReference),
{
    lemma_plain_text(input);
    if exists|o: Seq<char>, r: Seq<char>, s: Seq<char>, d: Seq<char>|
        is_reference_path(input, o, r, s, d) {
        let (o, r, s, d) = choose|o: Seq<char>, r: Seq<char>, s: Seq<char>, d: Seq<char>|
            is_reference_path(input, o, r, s, d);
        lemma_reference_layout(input, o, r, s, d);
        let last = input.len() - 1;
        assert(input[last] == d[d.len() - 1]);
        assert(input[o.len() as int] == '/');
    }
}

} // verus!
