//! Semantic versions and their precedence.

use vstd::prelude::*;

verus! {

/// One dot-separated part of a pre-release tag.
#[derive(Clone, Debug, PartialEq, Eq)]
pub enum Identifier {
    /// A part made of digits only, compared as a number.
    Numeric(u64),
    /// Any other part, compared byte by byte.
    Text(Vec<u8>),
}

/// The mathematical value of an [`Identifier`].
pub enum IdentifierView {
    Numeric(nat),
    Text(Seq<u8>),
}

impl View for Identifier {
    type V = IdentifierView;

    open spec fn view(&self) -> IdentifierView {
        match self {
            Identifier::Numeric(n) => IdentifierView::Numeric(*n as nat),
            Identifier::Text(t) => IdentifierView::Text(t@),
        }
    }
}

/// A semantic version: three numbers and an optional pre-release tag.
/// A version without a tag is a release.
#[derive(Clone, Debug, PartialEq, Eq)]
pub struct Version {
    pub major: u64,
    pub minor: u64,
    pub patch: u64,
    pub pre: Vec<Identifier>,
}

/// The mathematical value of a [`Version`].
pub struct VersionView {
    pub major: nat,
    pub minor: nat,
    pub patch: nat,
    pub pre: Seq<IdentifierView>,
}

impl View for Version {
    type V = VersionView;

    open spec fn view(&self) -> VersionView {
        VersionView {
            major: self.major as nat,
            minor: self.minor as nat,
            patch: self.patch as nat,
            pre: Seq::new(self.pre@.len(), |i: int| self.pre@[i]@),
        }
    }
}

/// `a` and `b` agree on their first `k` items, and at position `k` either
/// `a` ends while `b` goes on, or `a` holds the smaller byte.
pub open spec fn bytes_precede_at(a: Seq<u8>, b: Seq<u8>, k: int) -> bool {
    &&& 0 <= k <= a.len()
    &&& k < b.len()
    &&& forall|j: int| 0 <= j < k ==> a[j] == b[j]
    &&& (k == a.len() || a[k] < b[k])
}

/// Lexical order of byte strings: a proper prefix comes first, otherwise the
/// first byte that differs decides.
pub open spec fn bytes_precede(a: Seq<u8>, b: Seq<u8>) -> bool {
    exists|k: int| bytes_precede_at(a, b, k)
}

/// Precedence of two parts of a pre-release tag: numbers by value, text
/// lexically, and every number before every text.
pub open spec fn identifier_precedes(a: IdentifierView, b: IdentifierView) -> bool {
    match (a, b) {
        (IdentifierView::Numeric(x), IdentifierView::Numeric(y)) => x < y,
        (IdentifierView::Numeric(_), IdentifierView::Text(_)) => true,
        (IdentifierView::Text(_), IdentifierView::Numeric(_)) => false,
        (IdentifierView::Text(s), IdentifierView::Text(t)) => bytes_precede(s, t),
    }
}

/// `a` and `b` agree on their first `k` parts, and at position `k` either
/// `a` ends while `b` goes on, or `a` holds the part of lower precedence.
pub open spec fn tags_precede_at(a: Seq<IdentifierView>, b: Seq<IdentifierView>, k: int) -> bool {
    &&& 0 <= k <= a.len()
    &&& k < b.len()
    &&& forall|j: int| 0 <= j < k ==> a[j] == b[j]
    &&& (k == a.len() || identifier_precedes(a[k], b[k]))
}

/// Precedence of two pre-release tags, part by part; a tag that is a proper
/// prefix of another comes first.
pub open spec fn tags_precede(a: Seq<IdentifierView>, b: Seq<IdentifierView>) -> bool {
    exists|k: int| tags_precede_at(a, b, k)
}

/// Semantic-version precedence: `a` is strictly lower than `b`. Major, minor
/// and patch decide in that order; on equal numbers a pre-release is lower
/// than the release, and two pre-releases go by their tags.
pub open spec fn precedes(a: VersionView, b: VersionView) -> bool {
    if a.major != b.major {
        a.major < b.major
    } else if a.minor != b.minor {
        a.minor < b.minor
    } else if a.patch != b.patch {
        a.patch < b.patch
    } else if a.pre.len() == 0 {
        false
    } else if b.pre.len() == 0 {
        true
    } else {
        tags_precede(a.pre, b.pre)
    }
}

/// No byte string comes before itself.
pub proof fn lemma_bytes_irreflexive(a: Seq<u8>)
    ensures
        !bytes_precede(a, a),
{
    assert forall|k: int| !bytes_precede_at(a, a, k) by {}
}

/// The lexical order of byte strings is transitive.
pub proof fn lemma_bytes_transitive(a: Seq<u8>, b: Seq<u8>, c: Seq<u8>)
    requires
        bytes_precede(a, b),
        bytes_precede(b, c),
    ensures
        bytes_precede(a, c),
{
    let k1 = choose|k: int| bytes_precede_at(a, b, k);
    let k2 = choose|k: int| bytes_precede_at(b, c, k);
    let k = if k1 <= k2 { k1 } else { k2 };
    assert(bytes_precede_at(a, c, k));
}

proof fn lemma_bytes_total_from(a: Seq<u8>, b: Seq<u8>, i: int)
    requires
        0 <= i <= a.len(),
        i <= b.len(),
        forall|j: int| 0 <= j < i ==> a[j] == b[j],
    ensures
        a == b || bytes_precede(a, b) || bytes_precede(b, a),
    decreases a.len() - i,
{
    if i == a.len() {
        if i == b.len() {
            assert(a =~= b);
        } else {
            assert(bytes_precede_at(a, b, i));
        }
    } else if i == b.len() {
        assert(bytes_precede_at(b, a, i));
    } else if a[i] < b[i] {
        assert(bytes_precede_at(a, b, i));
    } else if b[i] < a[i] {
        assert(bytes_precede_at(b, a, i));
    } else {
        lemma_bytes_total_from(a, b, i + 1);
    }
}

/// Of two different byte strings one comes before the other.
pub proof fn lemma_bytes_total(a: Seq<u8>, b: Seq<u8>)
    ensures
        a == b || bytes_precede(a, b) || bytes_precede(b, a),
{
    lemma_bytes_total_from(a, b, 0);
}

/// No part of a tag comes before itself.
pub proof fn lemma_identifier_irreflexive(a: IdentifierView)
    ensures
        !identifier_precedes(a, a),
{
    if let IdentifierView::Text(s) = a {
        lemma_bytes_irreflexive(s);
    }
}

/// The precedence of tag parts is transitive.
pub proof fn lemma_identifier_transitive(a: IdentifierView, b: IdentifierView, c: IdentifierView)
    requires
        identifier_precedes(a, b),
        identifier_precedes(b, c),
    ensures
        identifier_precedes(a, c),
{
    match (a, b, c) {
        (IdentifierView::Text(s), IdentifierView::Text(t), IdentifierView::Text(u)) => {
            lemma_bytes_transitive(s, t, u);
        },
        _ => {},
    }
}

/// Of two different tag parts one comes before the other.
pub proof fn lemma_identifier_total(a: IdentifierView, b: IdentifierView)
    ensures
        a == b || identifier_precedes(a, b) || identifier_precedes(b, a),
{
    match (a, b) {
        (IdentifierView::Text(s), IdentifierView::Text(t)) => {
            lemma_bytes_total(s, t);
        },
        _ => {},
    }
}

/// No tag comes before itself.
pub proof fn lemma_tags_irreflexive(a: Seq<IdentifierView>)
    ensures
        !tags_precede(a, a),
{
    assert forall|k: int| !tags_precede_at(a, a, k) by {
        if 0 <= k < a.len() {
            lemma_identifier_irreflexive(a[k]);
        }
    }
}

/// The precedence of tags is transitive.
pub proof fn lemma_tags_transitive(
    a: Seq<IdentifierView>,
    b: Seq<IdentifierView>,
    c: Seq<IdentifierView>,
)
    requires
        tags_precede(a, b),
        tags_precede(b, c),
    ensures
        tags_precede(a, c),
{
    let k1 = choose|k: int| tags_precede_at(a, b, k);
    let k2 = choose|k: int| tags_precede_at(b, c, k);
    if k1 < k2 {
        assert(tags_precede_at(a, c, k1));
    } else if k2 < k1 {
        assert(tags_precede_at(a, c, k2));
    } else {
        if k1 < a.len() {
            lemma_identifier_transitive(a[k1], b[k1], c[k1]);
        }
        assert(tags_precede_at(a, c, k1));
    }
}

proof fn lemma_tags_total_from(a: Seq<IdentifierView>, b: Seq<IdentifierView>, i: int)
    requires
        0 <= i <= a.len(),
        i <= b.len(),
        forall|j: int| 0 <= j < i ==> a[j] == b[j],
    ensures
        a == b || tags_precede(a, b) || tags_precede(b, a),
    decreases a.len() - i,
{
    if i == a.len() {
        if i == b.len() {
            assert(a =~= b);
        } else {
            assert(tags_precede_at(a, b, i));
        }
    } else if i == b.len() {
        assert(tags_precede_at(b, a, i));
    } else if identifier_precedes(a[i], b[i]) {
        assert(tags_precede_at(a, b, i));
    } else if identifier_precedes(b[i], a[i]) {
        assert(tags_precede_at(b, a, i));
    } else {
        lemma_identifier_total(a[i], b[i]);
        lemma_tags_total_from(a, b, i + 1);
    }
}

/// Of two different tags one comes before the other.
pub proof fn lemma_tags_total(a: Seq<IdentifierView>, b: Seq<IdentifierView>)
    ensures
        a == b || tags_precede(a, b) || tags_precede(b, a),
{
    lemma_tags_total_from(a, b, 0);
}

/// No version is lower than itself.
pub proof fn lemma_precedes_irreflexive(a: VersionView)
    ensures
        !precedes(a, a),
{
    lemma_tags_irreflexive(a.pre);
}

/// Precedence is transitive.
pub proof fn lemma_precedes_transitive(a: VersionView, b: VersionView, c: VersionView)
    requires
        precedes(a, b),
        precedes(b, c),
    ensures
        precedes(a, c),
{
    if a.major == b.major && b.major == c.major && a.minor == b.minor && b.minor == c.minor
        && a.patch == b.patch && b.patch == c.patch && c.pre.len() != 0 {
        lemma_tags_transitive(a.pre, b.pre, c.pre);
    }
}

/// Precedence is total: of two different versions one is lower than the
/// other.
pub proof fn lemma_precedes_total(a: VersionView, b: VersionView)
    ensures
        a == b || precedes(a, b) || precedes(b, a),
{
    if a.major == b.major && a.minor == b.minor && a.patch == b.patch {
        lemma_tags_total(a.pre, b.pre);
    }
}

/// Precedence is asymmetric: two versions are never each lower than the
/// other.
pub proof fn lemma_precedes_asymmetric(a: VersionView, b: VersionView)
    requires
        precedes(a, b),
    ensures
        !precedes(b, a),
{
    if precedes(b, a) {
        lemma_precedes_transitive(a, b, a);
        lemma_precedes_irreflexive(a);
    }
}

/// Whether the byte string `a` comes before `b` in lexical order.
pub fn bytes_lower(a: &[u8], b: &[u8]) -> (r: bool)
    ensures
        r == bytes_precede(a@, b@),
{
    let mut i: usize = 0;
    while i < a.len() && i < b.len()
        invariant
            i <= a.len(),
            i <= b.len(),
            forall|j: int| 0 <= j < i ==> a@[j] == b@[j],
        decreases a.len() - i,
    {
        if a[i] < b[i] {
            assert(bytes_precede_at(a@, b@, i as int));
            return true;
        }
        if b[i] < a[i] {
            assert forall|k: int| !bytes_precede_at(a@, b@, k) by {}
            return false;
        }
        i += 1;
    }
    if i < b.len() {
        assert(bytes_precede_at(a@, b@, i as int));
        true
    } else {
        assert forall|k: int| !bytes_precede_at(a@, b@, k) by {}
        false
    }
}

impl Identifier {
    /// Whether this part has lower precedence than `other`.
    pub fn lower_than(&self, other: &Identifier) -> (r: bool)
        ensures
            r == identifier_precedes(self@, other@),
    {
        match self {
            Identifier::Numeric(x) => match other {
                Identifier::Numeric(y) => *x < *y,
                Identifier::Text(_) => true,
            },
            Identifier::Text(s) => match other {
                Identifier::Numeric(_) => false,
                Identifier::Text(t) => bytes_lower(s.as_slice(), t.as_slice()),
            },
        }
    }

    /// A copy of this part.
    pub fn duplicate(&self) -> (r: Identifier)
        ensures
            r@ == self@,
    {
        match self {
            Identifier::Numeric(x) => Identifier::Numeric(*x),
            Identifier::Text(s) => {
                let mut t: Vec<u8> = Vec::new();
                let mut i: usize = 0;
                while i < s.len()
                    invariant
                        i <= s.len(),
                        t@ == s@.subrange(0, i as int),
                    decreases s.len() - i,
                {
                    t.push(s[i]);
                    assert(t@ =~= s@.subrange(0, i + 1));
                    i += 1;
                }
                assert(t@ =~= s@);
                Identifier::Text(t)
            },
        }
    }
}

/// Whether the tag `a` has lower precedence than the tag `b`.
fn tags_lower(a: &Vec<Identifier>, b: &Vec<Identifier>) -> (r: bool)
    ensures
        r == tags_precede(
            Seq::new(a@.len(), |i: int| a@[i]@),
            Seq::new(b@.len(), |i: int| b@[i]@),
        ),
{
    let ghost sa = Seq::new(a@.len(), |i: int| a@[i]@);
    let ghost sb = Seq::new(b@.len(), |i: int| b@[i]@);
    let mut i: usize = 0;
    while i < a.len() && i < b.len()
        invariant
            i <= a.len(),
            i <= b.len(),
            sa == Seq::new(a@.len(), |i: int| a@[i]@),
            sb == Seq::new(b@.len(), |i: int| b@[i]@),
            forall|j: int| 0 <= j < i ==> sa[j] == sb[j],
        decreases a.len() - i,
    {
        if a[i].lower_than(&b[i]) {
            assert(tags_precede_at(sa, sb, i as int));
            return true;
        }
        if b[i].lower_than(&a[i]) {
            proof {
                if identifier_precedes(sa[i as int], sb[i as int]) {
                    lemma_identifier_transitive(sa[i as int], sb[i as int], sa[i as int]);
                    lemma_identifier_irreflexive(sa[i as int]);
                }
            }
            assert forall|k: int| !tags_precede_at(sa, sb, k) by {}
            return false;
        }
        proof {
            lemma_identifier_total(sa[i as int], sb[i as int]);
        }
        i += 1;
    }
    if i < b.len() {
        assert(tags_precede_at(sa, sb, i as int));
        true
    } else {
        assert forall|k: int| !tags_precede_at(sa, sb, k) by {}
        false
    }
}

impl Version {
    /// The release `major.minor.patch`.
    pub fn new(major: u64, minor: u64, patch: u64) -> (r: Version)
        ensures
            r@ == (VersionView {
                major: major as nat,
                minor: minor as nat,
                patch: patch as nat,
                pre: Seq::empty(),
            }),
    {
        let r = Version { major, minor, patch, pre: Vec::new() };
        assert(r@.pre =~= Seq::empty());
        r
    }

    /// The pre-release of `major.minor.patch` with the tag `pre`; with an
    /// empty tag, the release itself.
    pub fn with_tag(major: u64, minor: u64, patch: u64, pre: Vec<Identifier>) -> (r: Version)
        ensures
            r@ == (VersionView {
                major: major as nat,
                minor: minor as nat,
                patch: patch as nat,
                pre: Seq::new(pre@.len(), |i: int| pre@[i]@),
            }),
    {
        Version { major, minor, patch, pre }
    }

    /// Whether the version carries no pre-release tag.
    pub fn is_release(&self) -> (r: bool)
        ensures
            r == (self@.pre.len() == 0),
    {
        self.pre.len() == 0
    }

    /// Whether this version is strictly lower than `other`.
    pub fn lower_than(&self, other: &Version) -> (r: bool)
        ensures
            r == precedes(self@, other@),
    {
        if self.major != other.major {
            self.major < other.major
        } else if self.minor != other.minor {
            self.minor < other.minor
        } else if self.patch != other.patch {
            self.patch < other.patch
        } else if self.pre.len() == 0 {
            false
        } else if other.pre.len() == 0 {
            true
        } else {
            tags_lower(&self.pre, &other.pre)
        }
    }

    /// Whether the two versions are the same version.
    pub fn same_as(&self, other: &Version) -> (r: bool)
        ensures
            r == (self@ == other@),
    {
        proof {
            lemma_precedes_total(self@, other@);
            lemma_precedes_irreflexive(self@);
        }
        !self.lower_than(other) && !other.lower_than(self)
    }

    /// A copy of this version.
    pub fn duplicate(&self) -> (r: Version)
        ensures
            r@ == self@,
    {
        let mut pre: Vec<Identifier> = Vec::new();
        let mut i: usize = 0;
        while i < self.pre.len()
            invariant
                i <= self.pre.len(),
                pre@.len() == i,
                forall|j: int| 0 <= j < i ==> pre@[j]@ == self.pre@[j]@,
            decreases self.pre.len() - i,
        {
            pre.push(self.pre[i].duplicate());
            i += 1;
        }
        let r = Version { major: self.major, minor: self.minor, patch: self.patch, pre };
        assert(r@.pre =~= self@.pre);
        r
    }
}

} // verus!
