//! Semantic versions and the ordering between them.
//!
//! The upgrade policy compares the installed chart version against fixed
//! bounds and against the version of the running binary, so the precedence
//! rules for pre-release identifiers matter: a numeric identifier is ordered
//! numerically and below every alphanumeric one, alphanumeric identifiers are
//! ordered byte-wise, and a release without pre-release identifiers is above
//! every pre-release of the same triple.

use vstd::prelude::*;
use vstd::string::*;

verus! {

/// One identifier of a pre-release tag: `"rc.1"` holds `Alpha("rc")` and
/// `Numeric(1)`.
pub enum PreIdent {
    Numeric(u64),
    Alpha(Vec<u8>),
}

/// The mathematical value of one pre-release identifier.
pub enum PreIdentView {
    Numeric(u64),
    Alpha(Seq<u8>),
}

impl View for PreIdent {
    type V = PreIdentView;

    open spec fn view(&self) -> PreIdentView {
        match self {
            PreIdent::Numeric(n) => PreIdentView::Numeric(*n),
            PreIdent::Alpha(b) => PreIdentView::Alpha(b@),
        }
    }
}

/// A semantic version: `major.minor.patch`, optionally followed by
/// pre-release identifiers. An empty identifier list is a stable release.
pub struct Version {
    pub major: u64,
    pub minor: u64,
    pub patch: u64,
    pub pre: Vec<PreIdent>,
}

/// The mathematical value of a version.
pub struct VersionView {
    pub major: u64,
    pub minor: u64,
    pub patch: u64,
    pub pre: Seq<PreIdentView>,
}

impl View for Version {
    type V = VersionView;

    open spec fn view(&self) -> VersionView {
        VersionView {
            major: self.major,
            minor: self.minor,
            patch: self.patch,
            pre: self.pre@.map_values(|p: PreIdent| p@),
        }
    }
}

/// Three-way comparison of two integers: -1, 0 or 1.
pub open spec fn cmp3(x: int, y: int) -> int {
    if x < y {
        -1
    } else if x > y {
        1
    } else {
        0
    }
}

/// Byte-wise (lexicographic) three-way comparison, a strict prefix ordering
/// below the longer sequence.
pub open spec fn cmp_bytes(a: Seq<u8>, b: Seq<u8>) -> int
    decreases a.len(),
{
    if a.len() == 0 && b.len() == 0 {
        0
    } else if a.len() == 0 {
        -1
    } else if b.len() == 0 {
        1
    } else if a[0] != b[0] {
        cmp3(a[0] as int, b[0] as int)
    } else {
        cmp_bytes(a.drop_first(), b.drop_first())
    }
}

/// Precedence of single pre-release identifiers: numeric identifiers compare
/// numerically and sit below every alphanumeric identifier.
pub open spec fn cmp_ident(a: PreIdentView, b: PreIdentView) -> int {
    match (a, b) {
        (PreIdentView::Numeric(x), PreIdentView::Numeric(y)) => cmp3(x as int, y as int),
        (PreIdentView::Numeric(_), PreIdentView::Alpha(_)) => -1,
        (PreIdentView::Alpha(_), PreIdentView::Numeric(_)) => 1,
        (PreIdentView::Alpha(x), PreIdentView::Alpha(y)) => cmp_bytes(x, y),
    }
}

/// Identifier lists compare element-wise; a strict prefix is lower.
pub open spec fn cmp_idents(a: Seq<PreIdentView>, b: Seq<PreIdentView>) -> int
    decreases a.len(),
{
    if a.len() == 0 && b.len() == 0 {
        0
    } else if a.len() == 0 {
        -1
    } else if b.len() == 0 {
        1
    } else if cmp_ident(a[0], b[0]) != 0 {
        cmp_ident(a[0], b[0])
    } else {
        cmp_idents(a.drop_first(), b.drop_first())
    }
}

/// Pre-release tags as a whole: no tag at all is *above* any tag.
pub open spec fn cmp_pre(a: Seq<PreIdentView>, b: Seq<PreIdentView>) -> int {
    if a.len() == 0 && b.len() == 0 {
        0
    } else if a.len() == 0 {
        1
    } else if b.len() == 0 {
        -1
    } else {
        cmp_idents(a, b)
    }
}

/// Semantic-version precedence: the triple first, then the pre-release tag.
pub open spec fn cmp_version(a: VersionView, b: VersionView) -> int {
    if a.major != b.major {
        cmp3(a.major as int, b.major as int)
    } else if a.minor != b.minor {
        cmp3(a.minor as int, b.minor as int)
    } else if a.patch != b.patch {
        cmp3(a.patch as int, b.patch as int)
    } else {
        cmp_pre(a.pre, b.pre)
    }
}

pub open spec fn version_lt(a: VersionView, b: VersionView) -> bool {
    cmp_version(a, b) == -1
}

pub open spec fn version_le(a: VersionView, b: VersionView) -> bool {
    cmp_version(a, b) != 1
}

/// The value of a stable version, used for fixed policy bounds.
pub open spec fn stable(major: u64, minor: u64, patch: u64) -> VersionView {
    VersionView { major, minor, patch, pre: Seq::empty() }
}

fn cmp_u64(x: u64, y: u64) -> (r: i8)
    ensures
        r as int == cmp3(x as int, y as int),
{
    if x < y {
        -1
    } else if x > y {
        1
    } else {
        0
    }
}

fn cmp_byte_vecs(a: &Vec<u8>, b: &Vec<u8>) -> (r: i8)
    ensures
        r as int == cmp_bytes(a@, b@),
{
    let mut i: usize = 0;
    proof {
        assert(a@.skip(0) =~= a@);
        assert(b@.skip(0) =~= b@);
    }
    loop
        invariant
            i <= a.len(),
            i <= b.len(),
            cmp_bytes(a@, b@) == cmp_bytes(a@.skip(i as int), b@.skip(i as int)),
        decreases a.len() - i,
    {
        proof {
            assert(a@.skip(i as int).len() == a@.len() - i);
            assert(b@.skip(i as int).len() == b@.len() - i);
        }
        if i == a.len() && i == b.len() {
            return 0;
        } else if i == a.len() {
            return -1;
        } else if i == b.len() {
            return 1;
        }
        let x = a[i];
        let y = b[i];
        assert(a@.skip(i as int)[0] == a@[i as int]);
        assert(b@.skip(i as int)[0] == b@[i as int]);
        if x != y {
            return cmp_u64(x as u64, y as u64);
        }
        proof {
            assert(a@.skip(i as int).drop_first() =~= a@.skip(i + 1));
            assert(b@.skip(i as int).drop_first() =~= b@.skip(i + 1));
        }
        i = i + 1;
    }
}

impl PreIdent {
    /// Three-way precedence comparison of two identifiers.
    pub fn cmp(&self, other: &PreIdent) -> (r: i8)
        ensures
            r as int == cmp_ident(self@, other@),
    {
        match (self, other) {
            (PreIdent::Numeric(x), PreIdent::Numeric(y)) => cmp_u64(*x, *y),
            (PreIdent::Numeric(_), PreIdent::Alpha(_)) => -1,
            (PreIdent::Alpha(_), PreIdent::Numeric(_)) => 1,
            (PreIdent::Alpha(x), PreIdent::Alpha(y)) => cmp_byte_vecs(x, y),
        }
    }
}

impl Version {
    /// A stable version with an empty pre-release tag.
    pub fn new(major: u64, minor: u64, patch: u64) -> (r: Version)
        ensures
            r@ == stable(major, minor, patch),
    {
        let r = Version { major, minor, patch, pre: Vec::new() };
        proof {
            assert(r@.pre =~= Seq::<PreIdentView>::empty());
        }
        r
    }

    /// True iff this is a stable release (no pre-release identifiers).
    pub fn is_stable(&self) -> (r: bool)
        ensures
            r == (self@.pre.len() == 0),
    {
        self.pre.len() == 0
    }

    /// Three-way precedence comparison.
    pub fn cmp(&self, other: &Version) -> (r: i8)
        ensures
            r as int == cmp_version(self@, other@),
    {
        let c = cmp_u64(self.major, other.major);
        if c != 0 {
            return c;
        }
        let c = cmp_u64(self.minor, other.minor);
        if c != 0 {
            return c;
        }
        let c = cmp_u64(self.patch, other.patch);
        if c != 0 {
            return c;
        }
        if self.pre.len() == 0 && other.pre.len() == 0 {
            return 0;
        } else if self.pre.len() == 0 {
            return 1;
        } else if other.pre.len() == 0 {
            return -1;
        }
        let mut i: usize = 0;
        proof {
            assert(self@.pre.skip(0) =~= self@.pre);
            assert(other@.pre.skip(0) =~= other@.pre);
        }
        loop
            invariant
                i <= self.pre.len(),
                i <= other.pre.len(),
                cmp_version(self@, other@) == cmp_idents(
                    self@.pre.skip(i as int),
                    other@.pre.skip(i as int),
                ),
                self@.pre.len() == self.pre.len(),
                other@.pre.len() == other.pre.len(),
            decreases self.pre.len() - i,
        {
            proof {
                assert(self@.pre.skip(i as int).len() == self@.pre.len() - i);
                assert(other@.pre.skip(i as int).len() == other@.pre.len() - i);
            }
            if i == self.pre.len() && i == other.pre.len() {
                return 0;
            } else if i == self.pre.len() {
                return -1;
            } else if i == other.pre.len() {
                return 1;
            }
            assert(self@.pre.skip(i as int)[0] == self@.pre[i as int]);
            assert(other@.pre.skip(i as int)[0] == other@.pre[i as int]);
            let c = self.pre[i].cmp(&other.pre[i]);
            if c != 0 {
                return c;
            }
            proof {
                assert(self@.pre.skip(i as int).drop_first() =~= self@.pre.skip(i + 1));
                assert(other@.pre.skip(i as int).drop_first() =~= other@.pre.skip(i + 1));
            }
            i = i + 1;
        }
    }

    /// True iff `self` has strictly lower precedence than `other`.
    pub fn lt(&self, other: &Version) -> (r: bool)
        ensures
            r == version_lt(self@, other@),
    {
        self.cmp(other) == -1
    }

    /// True iff `self` has precedence at most that of `other`.
    pub fn le(&self, other: &Version) -> (r: bool)
        ensures
            r == version_le(self@, other@),
    {
        self.cmp(other) != 1
    }
}

/// True iff `v` lies in the version window whose partial-rebuild behaviour
/// was defective, so that upgrading from it must disable partial rebuilds:
/// at or above the lower bound and strictly below the upper bound.
pub fn requires_partial_rebuild_disable(v: &Version) -> (r: bool)
    ensures
        r == (version_le(stable(3, 7, 0), v@) && version_lt(v@, stable(3, 10, 0))),
{
    let lower = Version::new(3, 7, 0);
    let upper = Version::new(3, 10, 0);
    lower.le(v) && v.lt(&upper)
}

pub open spec fn is_digit(b: u8) -> bool {
    48 <= b <= 57
}

pub open spec fn all_digits(s: Seq<u8>) -> bool {
    forall|i: int| 0 <= i < s.len() ==> is_digit(s[i])
}

/// The number that a sequence of decimal digit bytes denotes.
pub open spec fn num_of(s: Seq<u8>) -> int
    decreases s.len(),
{
    if s.len() == 0 {
        0
    } else {
        num_of(s.drop_last()) * 10 + (s.last() - 48)
    }
}

/// How one dot-separated pre-release segment is read: digits that denote a
/// number the machine can hold make a numeric identifier, everything else
/// (including an empty segment) is alphanumeric.
pub open spec fn ident_of(s: Seq<u8>) -> PreIdentView {
    if s.len() > 0 && all_digits(s) && num_of(s) <= u64::MAX {
        PreIdentView::Numeric(num_of(s) as u64)
    } else {
        PreIdentView::Alpha(s)
    }
}

proof fn lemma_num_of_nonneg(s: Seq<u8>)
    requires
        all_digits(s),
    ensures
        num_of(s) >= 0,
    decreases s.len(),
{
    if s.len() > 0 {
        assert(all_digits(s.drop_last()));
        lemma_num_of_nonneg(s.drop_last());
    }
}

proof fn lemma_num_of_take_le(s: Seq<u8>, i: int)
    requires
        all_digits(s),
        0 <= i <= s.len(),
    ensures
        num_of(s.take(i)) <= num_of(s),
    decreases s.len(),
{
    if i == s.len() {
        assert(s.take(i) =~= s);
    } else {
        assert(s.take(i) =~= s.drop_last().take(i));
        assert(all_digits(s.drop_last()));
        lemma_num_of_take_le(s.drop_last(), i);
        lemma_num_of_nonneg(s.drop_last());
    }
}

/// The index of the first dot in `s`, or `s.len()` if there is none.
pub open spec fn first_dot(s: Seq<u8>) -> int
    decreases s.len(),
{
    if s.len() == 0 {
        0
    } else if s[0] == 46 {
        0
    } else {
        1 + first_dot(s.drop_first())
    }
}

proof fn lemma_first_dot_bounds(s: Seq<u8>)
    ensures
        0 <= first_dot(s) <= s.len(),
        forall|j: int| 0 <= j < first_dot(s) ==> s[j] != 46,
        first_dot(s) < s.len() ==> s[first_dot(s)] == 46,
    decreases s.len(),
{
    if s.len() > 0 && s[0] != 46 {
        lemma_first_dot_bounds(s.drop_first());
        assert forall|j: int| 0 <= j < first_dot(s) implies s[j] != 46 by {
            if j > 0 {
                assert(s.drop_first()[j - 1] == s[j]);
            }
        }
    }
}

proof fn lemma_first_dot_at(s: Seq<u8>, k: int)
    requires
        0 <= k <= s.len(),
        forall|j: int| 0 <= j < k ==> s[j] != 46,
        k < s.len() ==> s[k] == 46,
    ensures
        first_dot(s) == k,
    decreases s.len(),
{
    if s.len() > 0 && s[0] != 46 {
        lemma_first_dot_at(s.drop_first(), k - 1);
    }
}

/// A non-empty pre-release byte string read as its dot-separated identifiers.
pub open spec fn split_pre(s: Seq<u8>) -> Seq<PreIdentView>
    decreases s.len(),
{
    let k = first_dot(s);
    if 0 <= k < s.len() {
        seq![ident_of(s.take(k))] + split_pre(s.skip(k + 1))
    } else {
        seq![ident_of(s)]
    }
}

/// The identifiers that a whole pre-release byte string denotes; empty means
/// a stable release.
pub open spec fn pre_of_bytes(s: Seq<u8>) -> Seq<PreIdentView> {
    if s.len() == 0 {
        Seq::empty()
    } else {
        split_pre(s)
    }
}

/// Reads one dot-free segment `s[start..end]` as a pre-release identifier.
fn classify_segment(s: &Vec<u8>, start: usize, end: usize) -> (r: PreIdent)
    requires
        start <= end <= s.len(),
    ensures
        r@ == ident_of(s@.subrange(start as int, end as int)),
{
    let ghost seg = s@.subrange(start as int, end as int);
    let mut k: usize = start;
    let mut digits: bool = true;
    while k < end
        invariant
            start <= k <= end <= s.len(),
            digits == (forall|j: int| start <= j < k ==> is_digit(s@[j])),
        decreases end - k,
    {
        if s[k] < 48 || s[k] > 57 {
            digits = false;
        }
        k = k + 1;
    }
    proof {
        assert(digits == all_digits(seg)) by {
            if digits {
                assert(forall|j: int| 0 <= j < seg.len() ==> is_digit(#[trigger] seg[j]));
            } else {
                let w = choose|j: int| start <= j < end && !is_digit(s@[j]);
                assert(seg[w - start] == s@[w]);
            }
        }
    }
    if start == end || !digits {
        let mut out: Vec<u8> = Vec::new();
        let mut k2: usize = start;
        while k2 < end
            invariant
                start <= k2 <= end <= s.len(),
                out@ =~= s@.subrange(start as int, k2 as int),
            decreases end - k2,
        {
            out.push(s[k2]);
            proof {
                assert(out@ =~= s@.subrange(start as int, k2 + 1));
            }
            k2 = k2 + 1;
        }
        return PreIdent::Alpha(out);
    }
    let mut val: u64 = 0;
    let mut k3: usize = start;
    proof {
        assert(seg.take(0) =~= Seq::<u8>::empty());
    }
    while k3 < end
        invariant
            start <= k3 <= end <= s.len(),
            all_digits(seg),
            seg =~= s@.subrange(start as int, end as int),
            seg.len() == end - start,
            val == num_of(seg.take(k3 - start)),
        decreases end - k3,
    {
        proof {
            assert(seg[k3 - start] == s@[k3 as int]);
            assert(is_digit(s@[k3 as int]));
            assert(seg.take(k3 - start + 1).drop_last() =~= seg.take(k3 - start));
            assert(seg.take(k3 - start + 1).last() == seg[k3 - start]);
        }
        let d: u8 = s[k3] - 48;
        let step = match val.checked_mul(10) {
            Some(v10) => v10.checked_add(d as u64),
            None => None,
        };
        match step {
            Some(v) => {
                val = v;
                k3 = k3 + 1;
            },
            None => {
                proof {
                    assert(num_of(seg.take(k3 - start + 1)) > u64::MAX);
                    lemma_num_of_take_le(seg, k3 - start + 1);
                }
                let mut out: Vec<u8> = Vec::new();
                let mut k2: usize = start;
                while k2 < end
                    invariant
                        start <= k2 <= end <= s.len(),
                        out@ =~= s@.subrange(start as int, k2 as int),
                    decreases end - k2,
                {
                    out.push(s[k2]);
                    proof {
                        assert(out@ =~= s@.subrange(start as int, k2 + 1));
                    }
                    k2 = k2 + 1;
                }
                return PreIdent::Alpha(out);
            },
        }
    }
    proof {
        assert(seg.take(end - start) =~= seg);
        lemma_num_of_nonneg(seg);
    }
    PreIdent::Numeric(val)
}

/// Reads a whole pre-release byte string, such as `rc.1`, into its
/// identifier list; an empty string reads as the empty list.
pub fn parse_pre_bytes(s: &Vec<u8>) -> (r: Vec<PreIdent>)
    ensures
        r@.map_values(|p: PreIdent| p@) == pre_of_bytes(s@),
{
    let mut out: Vec<PreIdent> = Vec::new();
    if s.len() == 0 {
        proof {
            assert(out@.map_values(|p: PreIdent| p@) =~= pre_of_bytes(s@));
        }
        return out;
    }
    let mut start: usize = 0;
    proof {
        assert(s@.skip(0) =~= s@);
        assert(out@.map_values(|p: PreIdent| p@) + split_pre(s@) =~= split_pre(s@));
    }
    loop
        invariant
            start <= s.len(),
            s@.len() > 0,
            pre_of_bytes(s@) =~= out@.map_values(|p: PreIdent| p@) + split_pre(s@.skip(start as int)),
        decreases s.len() - start,
    {
        let mut j: usize = start;
        while j < s.len() && s[j] != 46
            invariant
                start <= j <= s.len(),
                forall|k: int| start <= k < j ==> s@[k] != 46,
            decreases s.len() - j,
        {
            j = j + 1;
        }
        let ghost rest = s@.skip(start as int);
        let ghost old_out = out@;
        proof {
            assert(forall|k: int| 0 <= k < j - start ==> rest[k] == s@[k + start] && rest[k] != 46);
            if j < s.len() {
                assert(rest[j - start] == s@[j as int]);
            }
            lemma_first_dot_at(rest, j - start);
        }
        let ident = classify_segment(s, start, j);
        proof {
            if j < s.len() {
                assert(rest.take(j - start) =~= s@.subrange(start as int, j as int));
                assert(rest.skip(j - start + 1) =~= s@.skip(j + 1));
                assert(split_pre(rest) =~= seq![ident@] + split_pre(s@.skip(j + 1)));
            } else {
                assert(rest =~= s@.subrange(start as int, j as int));
                assert(split_pre(rest) =~= seq![ident@]);
            }
        }
        out.push(ident);
        proof {
            assert(out@.map_values(|p: PreIdent| p@) =~= old_out.map_values(|p: PreIdent| p@)
                + seq![ident@]);
        }
        if j == s.len() {
            proof {
                assert(pre_of_bytes(s@) =~= out@.map_values(|p: PreIdent| p@));
            }
            return out;
        }
        proof {
            assert(pre_of_bytes(s@) =~= out@.map_values(|p: PreIdent| p@) + split_pre(
                s@.skip(j + 1),
            ));
        }
        start = j + 1;
    }
}

/// What `semver::Version::parse` reads out of a version string: the numeric
/// triple and the pre-release text, or nothing when the string is not a
/// well-formed semantic version. The result depends on the string alone.
pub uninterp spec fn semver_parts_of(s: Seq<char>) -> Option<(u64, u64, u64, Seq<char>)>;

/// Relies on `semver::Version::parse`: reads `major.minor.patch` with an
/// optional pre-release tag (and optional build metadata, which version
/// precedence ignores). The semantic-version grammar only admits ASCII
/// alphanumerics, hyphens and dots in a pre-release tag.
#[verifier::external_body]
fn parse_semver_parts(s: &str) -> (r: Option<(u64, u64, u64, String)>)
    ensures
        match r {
            Some(p) => semver_parts_of(s@) == Some((p.0, p.1, p.2, p.3@)) && p.3.is_ascii(),
            None => semver_parts_of(s@) is None,
        },
{
    match semver::Version::parse(s) {
        Ok(v) => Some((v.major, v.minor, v.patch, v.pre.as_str().to_owned())),
        Err(_) => None,
    }
}

/// ASCII text as the bytes that spell it.
pub open spec fn chars_as_bytes(s: Seq<char>) -> Seq<u8> {
    Seq::new(s.len(), |i: int| s[i] as u8)
}

/// The version value that a parsed part list denotes.
pub open spec fn version_of_parts(p: Option<(u64, u64, u64, Seq<char>)>) -> Option<VersionView> {
    match p {
        Some(t) => Some(
            VersionView { major: t.0, minor: t.1, patch: t.2, pre: pre_of_bytes(chars_as_bytes(t.3)) },
        ),
        None => None,
    }
}

impl Version {
    /// Reads a semantic-version string, such as `2.7.0-rc.3`.
    pub fn parse(s: &str) -> (r: Option<Version>)
        ensures
            match r {
                Some(v) => version_of_parts(semver_parts_of(s@)) == Some(v@),
                None => version_of_parts(semver_parts_of(s@)) is None,
            },
    {
        match parse_semver_parts(s) {
            Some((major, minor, patch, pre)) => {
                let pre_str = pre.as_str();
                let pre_bytes = pre_str.as_bytes_vec();
                proof {
                    broadcast use vstd::string::is_ascii_spec_bytes;

                    assert(is_ascii(pre_str));
                    assert(pre_bytes@ == pre_str.spec_bytes());
                    assert(pre_bytes@ =~= chars_as_bytes(pre@));
                }
                let idents = parse_pre_bytes(&pre_bytes);
                Some(Version { major, minor, patch, pre: idents })
            },
            None => None,
        }
    }
}

/// True iff going from `source` to `target` crosses the major-version
/// boundary at 4.0.0, which is when chart-managed custom resource
/// definitions may collide with ones already installed.
pub open spec fn spec_crosses_major_boundary(source: VersionView, target: VersionView) -> bool {
    version_lt(source, stable(4, 0, 0)) && !version_lt(target, stable(4, 0, 0))
}

/// Decides [`spec_crosses_major_boundary`] for two versions.
pub fn crosses_major_boundary(source: &Version, target: &Version) -> (r: bool)
    ensures
        r == spec_crosses_major_boundary(source@, target@),
{
    let bound = Version::new(4, 0, 0);
    source.lt(&bound) && !target.lt(&bound)
}

} // verus!
