use vstd::prelude::*;
use vstd::string::*;

verus! {

/// Whether `c` is white space in the sense of `char::is_whitespace` (the
/// Unicode `White_Space` property).
pub open spec fn is_white_space(c: char) -> bool {
    ||| '\u{9}' <= c <= '\u{d}'
    ||| c == ' '
    ||| c == '\u{85}'
    ||| c == '\u{a0}'
    ||| c == '\u{1680}'
    ||| '\u{2000}' <= c <= '\u{200a}'
    ||| c == '\u{2028}'
    ||| c == '\u{2029}'
    ||| c == '\u{202f}'
    ||| c == '\u{205f}'
    ||| c == '\u{3000}'
}

fn white_space(c: char) -> (res: bool)
    ensures
        res == is_white_space(c),
{
    ('\u{9}' <= c && c <= '\u{d}') || c == ' ' || c == '\u{85}' || c == '\u{a0}' || c == '\u{1680}'
        || ('\u{2000}' <= c && c <= '\u{200a}') || c == '\u{2028}' || c == '\u{2029}' || c
        == '\u{202f}' || c == '\u{205f}' || c == '\u{3000}'
}

/// `s` without its leading white space.
pub open spec fn trim_start(s: Seq<char>) -> Seq<char>
    decreases s.len(),
{
    if s.len() > 0 && is_white_space(s[0]) {
        trim_start(s.drop_first())
    } else {
        s
    }
}

/// `s` without its trailing white space.
pub open spec fn trim_end(s: Seq<char>) -> Seq<char>
    decreases s.len(),
{
    if s.len() > 0 && is_white_space(s.last()) {
        trim_end(s.drop_last())
    } else {
        s
    }
}

/// `s` without its leading and trailing white space (what `str::trim` gives).
pub open spec fn trim(s: Seq<char>) -> Seq<char> {
    trim_end(trim_start(s))
}

/// Whether the non-empty pattern `pat` occurs in `s` at position `i`.
pub open spec fn occurs_at(s: Seq<char>, i: int, pat: Seq<char>) -> bool {
    &&& pat.len() > 0
    &&& 0 <= i
    &&& i + pat.len() <= s.len()
    &&& forall|k: int| 0 <= k < pat.len() ==> #[trigger] s[i + k] == pat[k]
}

/// The part of `s` from position `i` on, with every occurrence of `pat`
/// replaced by `rep`, occurrences being taken from left to right without
/// overlap.
pub open spec fn replace_from(s: Seq<char>, pat: Seq<char>, rep: Seq<char>, i: int) -> Seq<char>
    decreases s.len() - i,
{
    if i < 0 || i >= s.len() {
        Seq::empty()
    } else if occurs_at(s, i, pat) {
        rep + replace_from(s, pat, rep, i + pat.len())
    } else {
        seq![s[i]] + replace_from(s, pat, rep, i + 1)
    }
}

/// `s` with every occurrence of `pat` replaced by `rep` (what `str::replace`
/// gives for a non-empty pattern).
pub open spec fn replace_all(s: Seq<char>, pat: Seq<char>, rep: Seq<char>) -> Seq<char> {
    replace_from(s, pat, rep, 0)
}

/// `s` without leading and trailing white space.
pub fn trim_white_space(s: &str) -> (res: String)
    ensures
        res@ == trim(s@),
{
    let n = s.unicode_len();
    let mut a: usize = 0;
    assert(s@.skip(0) =~= s@);
    while a < n && white_space(s.get_char(a))
        invariant
            n == s@.len(),
            a <= n,
            trim_start(s@) == trim_start(s@.skip(a as int)),
        decreases n - a,
    {
        assert(s@.skip(a as int).drop_first() =~= s@.skip(a + 1));
        a = a + 1;
    }
    assert(trim_start(s@.skip(a as int)) == s@.skip(a as int));
    let mut b: usize = n;
    while b > a && white_space(s.get_char(b - 1))
        invariant
            n == s@.len(),
            a <= b <= n,
            trim_start(s@) == s@.skip(a as int),
            trim(s@) == trim_end(s@.subrange(a as int, b as int)),
        decreases b - a,
    {
        assert(s@.subrange(a as int, b as int).drop_last() =~= s@.subrange(a as int, b - 1));
        b = b - 1;
    }
    proof {
        if a == 0 && b == n {
            assert(s@.skip(0) =~= s@);
        }
        assert(s@.skip(a as int) =~= s@.subrange(a as int, n as int));
    }
    String::from_str(s.substring_char(a, b))
}

/// Whether `pat` occurs in `s` at position `i`.
fn matches_at(s: &str, n: usize, i: usize, pat: &str, m: usize) -> (res: bool)
    requires
        n == s@.len(),
        m == pat@.len(),
        m > 0,
        i <= n,
    ensures
        res == occurs_at(s@, i as int, pat@),
{
    if m > n - i {
        return false;
    }
    let mut k: usize = 0;
    while k < m
        invariant
            n == s@.len(),
            m == pat@.len(),
            i + m <= n,
            k <= m,
            forall|j: int| 0 <= j < k ==> #[trigger] s@[i + j] == pat@[j],
        decreases m - k,
    {
        if s.get_char(i + k) != pat.get_char(k) {
            return false;
        }
        k = k + 1;
    }
    true
}

/// `s` with every occurrence of the non-empty pattern `pat` replaced by
/// `rep`, from left to right.
pub fn replace_all_occurrences(s: &str, pat: &str, rep: &str) -> (res: String)
    requires
        pat@.len() > 0,
    ensures
        res@ == replace_all(s@, pat@, rep@),
{
    let n = s.unicode_len();
    let m = pat.unicode_len();
    let mut res = String::new();
    let mut start: usize = 0;
    let mut i: usize = 0;
    while i < n
        invariant
            n == s@.len(),
            m == pat@.len(),
            m > 0,
            start <= i <= n,
            res@ + s@.subrange(start as int, i as int) + replace_from(s@, pat@, rep@, i as int)
                == replace_all(s@, pat@, rep@),
        decreases n - i,
    {
        if matches_at(s, n, i, pat, m) {
            let ghost before = res@ + s@.subrange(start as int, i as int);
            res.append(s.substring_char(start, i));
            res.append(rep);
            assert(res@ =~= before + rep@);
            assert(before + replace_from(s@, pat@, rep@, i as int) =~= before + rep@
                + replace_from(s@, pat@, rep@, i + m));
            i = i + m;
            start = i;
            assert(s@.subrange(start as int, i as int) =~= Seq::<char>::empty());
            assert(res@ + s@.subrange(start as int, i as int) =~= res@);
        } else {
            let ghost tail = replace_from(s@, pat@, rep@, i + 1);
            assert(replace_from(s@, pat@, rep@, i as int) == seq![s@[i as int]] + tail);
            assert(s@.subrange(start as int, i + 1) =~= s@.subrange(start as int, i as int).push(
                s@[i as int],
            ));
            assert(res@ + s@.subrange(start as int, i as int) + (seq![s@[i as int]] + tail) =~= res@
                + s@.subrange(start as int, i + 1) + tail);
            i = i + 1;
        }
    }
    res.append(s.substring_char(start, n));
    assert(res@ =~= res@ + Seq::<char>::empty());
    res
}

/// A GEOS release number, read in the semantic-versioning format.
#[derive(Debug, PartialEq, Eq)]
pub struct GeosVersion {
    pub major: u64,
    pub minor: u64,
    pub patch: u64,
    pub pre: String,
    pub build: String,
}

/// The fields of a version, as plain values.
pub open spec fn version_parts(v: GeosVersion) -> (u64, u64, u64, Seq<char>, Seq<char>) {
    (v.major, v.minor, v.patch, v.pre@, v.build@)
}

/// GEOS writes the pre-release part of its version without the hyphen that
/// semantic versioning asks for ("3.10.0beta1"); this is the version string
/// with surrounding white space removed and a hyphen put before each
/// "alpha", "beta" and "dev".
pub open spec fn normalized_version(raw: Seq<char>) -> Seq<char> {
    replace_all(
        replace_all(replace_all(trim(raw), "alpha"@, "-alpha"@), "beta"@, "-beta"@),
        "dev"@,
        "-dev"@,
    )
}

/// Standardizes a GEOS version string to the semantic-versioning format.
pub fn normalize_geos_version(raw_version: &str) -> (res: String)
    ensures
        res@ == normalized_version(raw_version@),
{
    proof {
        reveal_strlit("alpha");
        reveal_strlit("beta");
        reveal_strlit("dev");
    }
    let trimmed = trim_white_space(raw_version);
    let a = replace_all_occurrences(trimmed.as_str(), "alpha", "-alpha");
    let b = replace_all_occurrences(a.as_str(), "beta", "-beta");
    replace_all_occurrences(b.as_str(), "dev", "-dev")
}

/// The decimal digit for `d` (below ten).
pub open spec fn digit_char(d: nat) -> char {
    if d == 0 {
        '0'
    } else if d == 1 {
        '1'
    } else if d == 2 {
        '2'
    } else if d == 3 {
        '3'
    } else if d == 4 {
        '4'
    } else if d == 5 {
        '5'
    } else if d == 6 {
        '6'
    } else if d == 7 {
        '7'
    } else if d == 8 {
        '8'
    } else {
        '9'
    }
}

/// The decimal writing of `n`, without leading zeros.
pub open spec fn decimal(n: nat) -> Seq<char>
    decreases n,
{
    if n < 10 {
        seq![digit_char(n)]
    } else {
        decimal(n / 10) + seq![digit_char(n % 10)]
    }
}

/// Appends the decimal writing of `n` to `s`.
fn append_decimal(s: &mut String, n: u64)
    ensures
        final(s)@ == old(s)@ + decimal(n as nat),
    decreases n,
{
    if n >= 10 {
        append_decimal(s, n / 10);
    }
    let d = n % 10;
    proof {
        reveal_strlit("0");
        reveal_strlit("1");
        reveal_strlit("2");
        reveal_strlit("3");
        reveal_strlit("4");
        reveal_strlit("5");
        reveal_strlit("6");
        reveal_strlit("7");
        reveal_strlit("8");
        reveal_strlit("9");
    }
    let ghost before = s@;
    match d {
        0 => s.append("0"),
        1 => s.append("1"),
        2 => s.append("2"),
        3 => s.append("3"),
        4 => s.append("4"),
        5 => s.append("5"),
        6 => s.append("6"),
        7 => s.append("7"),
        8 => s.append("8"),
        _ => s.append("9"),
    }
    assert(s@ =~= before + seq![digit_char(d as nat)]);
}

/// The path, relative to the binding generator, of the file that holds the
/// prebuilt bindings for a GEOS release with this major and minor number.
pub open spec fn bindings_path_text(major: u64, minor: u64) -> Seq<char> {
    "../sys/prebuilt-bindings/geos_"@ + decimal(major as nat) + "."@ + decimal(minor as nat)
        + ".rs"@
}

/// Whether a version with these fields is at least GEOS 3.6.0, the oldest
/// supported release, in semantic-versioning precedence: major, minor and
/// patch numbers compare first, and a pre-release of 3.6.0 comes before
/// 3.6.0 itself (build metadata does not lower a version below 3.6.0).
pub open spec fn at_least_minimum(major: u64, minor: u64, patch: u64, pre: Seq<char>) -> bool {
    ||| major > 3
    ||| major == 3 && minor > 6
    ||| major == 3 && minor == 6 && patch > 0
    ||| major == 3 && minor == 6 && patch == 0 && pre.len() == 0
}

impl GeosVersion {
    /// Whether this version is one the bindings support (at least 3.6.0).
    pub fn is_supported(&self) -> (res: bool)
        ensures
            res == at_least_minimum(self.major, self.minor, self.patch, self.pre@),
    {
        if self.major != 3 {
            return self.major > 3;
        }
        if self.minor != 6 {
            return self.minor > 6;
        }
        if self.patch != 0 {
            return true;
        }
        self.pre.as_str().unicode_len() == 0
    }

    /// The file that holds the prebuilt bindings for this version:
    /// `../sys/prebuilt-bindings/geos_{major}.{minor}.rs`.
    pub fn bindings_path(&self) -> (res: String)
        ensures
            res@ == bindings_path_text(self.major, self.minor),
    {
        let mut res = String::from_str("../sys/prebuilt-bindings/geos_");
        append_decimal(&mut res, self.major);
        res.append(".");
        append_decimal(&mut res, self.minor);
        res.append(".rs");
        res
    }
}

/// The fields (major, minor, patch, pre-release, build metadata) of the
/// version that `semver::Version::parse` reads from `text`, or `None` where
/// it refuses the text.
pub uninterp spec fn semver_parse(text: Seq<char>) -> Option<(u64, u64, u64, Seq<char>, Seq<char>)>;

/// Calls `semver::Version::parse` and hands back the fields of the version
/// it read. Trusted: the result is the named `semver_parse` of the text;
/// the one further fact stated is that an empty text is refused (the
/// parser's first check).
#[verifier::external_body]
fn parse_semver(text: &str) -> (res: Option<GeosVersion>)
    ensures
        match res {
            Some(v) => semver_parse(text@) == Some(version_parts(v)),
            None => semver_parse(text@) is None,
        },
        text@.len() == 0 ==> res is None,
{
    match semver::Version::parse(text) {
        Ok(v) => Some(
            GeosVersion {
                major: v.major,
                minor: v.minor,
                patch: v.patch,
                pre: v.pre.as_str().to_string(),
                build: v.build.as_str().to_string(),
            },
        ),
        Err(_) => None,
    }
}

/// Reads a GEOS version string: the string is standardized, then read as a
/// semantic version. The string must be one that reads as a version.
pub fn parse_geos_version(raw_version: &str) -> (res: GeosVersion)
    requires
        semver_parse(normalized_version(raw_version@)) is Some,
    ensures
        semver_parse(normalized_version(raw_version@)) == Some(version_parts(res)),
{
    let text = normalize_geos_version(raw_version);
    match parse_semver(text.as_str()) {
        Some(v) => v,
        None => {
            assert(false);
            GeosVersion {
                major: 0,
                minor: 0,
                patch: 0,
                pre: String::new(),
                build: String::new(),
            }
        },
    }
}

/// Reads a GEOS version string as `parse_geos_version` does, or gives
/// `None` for a string that does not read as a version.
pub fn try_parse_geos_version(raw_version: &str) -> (res: Option<GeosVersion>)
    ensures
        match res {
            Some(v) => semver_parse(normalized_version(raw_version@)) == Some(version_parts(v)),
            None => semver_parse(normalized_version(raw_version@)) is None,
        },
{
    // `parse_geos_version` may only be given a text known to read as a
    // version; this first parse is what establishes that.
    let text = normalize_geos_version(raw_version);
    match parse_semver(text.as_str()) {
        Some(_) => Some(parse_geos_version(raw_version)),
        None => None,
    }
}

} // verus!
