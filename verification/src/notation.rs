//! The written form of a version: `major.minor.patch`, then optionally `-`
//! and a pre-release tag, then optionally `+` and build metadata.

use vstd::prelude::*;
use vstd::slice::slice_subrange;
use vstd::string::StringSliceAdditionalSpecFns;
use vstd::slice::slice_to_vec;
use crate::text::byte_views;
use crate::text::fields;
use crate::text::find;
use crate::text::is_digit;
use crate::text::number_of;
use crate::text::parse_number;
use crate::text::position;
use crate::text::split;
use crate::version::Identifier;
use crate::version::IdentifierView;
use crate::version::Version;
use crate::version::VersionView;

verus! {

/// A byte that may stand in a tag: a digit, an ASCII letter or a hyphen.
pub open spec fn is_tag_byte(b: u8) -> bool {
    is_digit(b) || 65 <= b <= 90 || 97 <= b <= 122 || b == 45
}

/// A part of a tag: at least one byte, all of them tag bytes.
pub open spec fn is_tag_part(s: Seq<u8>) -> bool {
    &&& s.len() > 0
    &&& forall|i: int| 0 <= i < s.len() ==> is_tag_byte(#[trigger] s[i])
}

/// `s` holds digits only.
pub open spec fn all_digits(s: Seq<u8>) -> bool {
    forall|i: int| 0 <= i < s.len() ==> is_digit(#[trigger] s[i])
}

/// What one part of a pre-release tag denotes. A part of digits is a
/// number, written without leading zeros and fitting in 64 bits; any other
/// part is text.
pub open spec fn identifier_of(s: Seq<u8>) -> Option<IdentifierView> {
    if !is_tag_part(s) {
        None
    } else if all_digits(s) {
        match number_of(s) {
            Some(n) => Some(IdentifierView::Numeric(n as nat)),
            None => None,
        }
    } else {
        Some(IdentifierView::Text(s))
    }
}

/// What the parts of a pre-release tag denote, if each of them is valid.
pub open spec fn tag_of(parts: Seq<Seq<u8>>) -> Option<Seq<IdentifierView>> {
    if forall|i: int| 0 <= i < parts.len() ==> (#[trigger] identifier_of(parts[i])) is Some {
        Some(Seq::new(parts.len(), |i: int| identifier_of(parts[i])->0))
    } else {
        None
    }
}

/// The parts of build metadata are valid.
pub open spec fn is_build_tag(parts: Seq<Seq<u8>>) -> bool {
    forall|i: int| 0 <= i < parts.len() ==> is_tag_part(#[trigger] parts[i])
}

/// The three numbers that `s` spells as `major.minor.patch`.
pub open spec fn core_of(s: Seq<u8>) -> Option<(u64, u64, u64)> {
    let f = fields(s, 46);
    if f.len() == 3 && number_of(f[0]) is Some && number_of(f[1]) is Some && number_of(
        f[2],
    ) is Some {
        Some((number_of(f[0])->0, number_of(f[1])->0, number_of(f[2])->0))
    } else {
        None
    }
}

/// The version that `s` denotes. Build metadata starts at the first `+`
/// and is checked, then ignored; the pre-release tag starts at the first
/// `-` before it.
pub open spec fn version_of(s: Seq<u8>) -> Option<VersionView> {
    let plus = position(s, 43);
    let head = s.take(plus);
    let dash = position(head, 45);
    let core = core_of(head.take(dash));
    let tag = if dash < head.len() {
        tag_of(fields(head.skip(dash + 1), 46))
    } else {
        Some(Seq::empty())
    };
    let build_ok = plus < s.len() ==> is_build_tag(fields(s.skip(plus + 1), 46));
    match (core, tag) {
        (Some(numbers), Some(pre)) if build_ok => Some(
            VersionView {
                major: numbers.0 as nat,
                minor: numbers.1 as nat,
                patch: numbers.2 as nat,
                pre,
            },
        ),
        _ => None,
    }
}

fn tag_byte(b: u8) -> (r: bool)
    ensures
        r == is_tag_byte(b),
{
    (48 <= b && b <= 57) || (65 <= b && b <= 90) || (97 <= b && b <= 122) || b == 45
}

/// Reads one part of a pre-release tag.
pub fn parse_identifier(s: &[u8]) -> (r: Option<Identifier>)
    ensures
        match r {
            Some(id) => identifier_of(s@) == Some(id@),
            None => identifier_of(s@) is None,
        },
{
    if s.len() == 0 {
        return None;
    }
    let mut digits = true;
    let mut i: usize = 0;
    while i < s.len()
        invariant
            i <= s.len(),
            forall|j: int| 0 <= j < i ==> is_tag_byte(#[trigger] s@[j]),
            digits == (forall|j: int| 0 <= j < i ==> is_digit(#[trigger] s@[j])),
        decreases s.len() - i,
    {
        let b = s[i];
        if !tag_byte(b) {
            return None;
        }
        if !(48 <= b && b <= 57) {
            assert(!is_digit(s@[i as int]));
            digits = false;
        }
        i += 1;
    }
    if digits {
        match parse_number(s) {
            Some(n) => Some(Identifier::Numeric(n)),
            None => None,
        }
    } else {
        Some(Identifier::Text(slice_to_vec(s)))
    }
}

/// The values of the parts that a vector of identifiers holds.
pub open spec fn identifier_views(v: Seq<Identifier>) -> Seq<IdentifierView> {
    Seq::new(v.len(), |i: int| v[i]@)
}

/// Reads a pre-release tag, the text after the `-`.
pub fn parse_tag(s: &[u8]) -> (r: Option<Vec<Identifier>>)
    ensures
        match r {
            Some(v) => tag_of(fields(s@, 46)) == Some(identifier_views(v@)),
            None => tag_of(fields(s@, 46)) is None,
        },
{
    let parts = split(s, 46);
    let ghost f = fields(s@, 46);
    let mut out: Vec<Identifier> = Vec::new();
    let mut i: usize = 0;
    while i < parts.len()
        invariant
            f == fields(s@, 46),
            byte_views(parts@) == f,
            i <= parts.len(),
            out@.len() == i,
            forall|j: int| 0 <= j < i ==> #[trigger] identifier_of(f[j]) == Some(out@[j]@),
        decreases parts.len() - i,
    {
        assert(f.len() == parts@.len());
        assert(parts@[i as int]@ == f[i as int]);
        match parse_identifier(parts[i].as_slice()) {
            Some(id) => {
                out.push(id);
            },
            None => {
                assert(identifier_of(f[i as int]) is None);
                return None;
            },
        }
        i += 1;
    }
    proof {
        assert(f.len() == parts@.len());
        assert(tag_of(f) is Some);
        assert(tag_of(f)->0 =~= identifier_views(out@));
    }
    Some(out)
}

fn tag_part(s: &[u8]) -> (r: bool)
    ensures
        r == is_tag_part(s@),
{
    if s.len() == 0 {
        return false;
    }
    let mut i: usize = 0;
    while i < s.len()
        invariant
            i <= s.len(),
            forall|j: int| 0 <= j < i ==> is_tag_byte(#[trigger] s@[j]),
        decreases s.len() - i,
    {
        if !tag_byte(s[i]) {
            return false;
        }
        i += 1;
    }
    true
}

/// Checks build metadata, the text after the `+`.
pub fn check_build(s: &[u8]) -> (r: bool)
    ensures
        r == is_build_tag(fields(s@, 46)),
{
    let parts = split(s, 46);
    let ghost f = fields(s@, 46);
    let mut i: usize = 0;
    while i < parts.len()
        invariant
            f == fields(s@, 46),
            byte_views(parts@) == f,
            i <= parts.len(),
            forall|j: int| 0 <= j < i ==> is_tag_part(#[trigger] f[j]),
        decreases parts.len() - i,
    {
        assert(f.len() == parts@.len());
        assert(parts@[i as int]@ == f[i as int]);
        if !tag_part(parts[i].as_slice()) {
            return false;
        }
        i += 1;
    }
    assert(f.len() == parts@.len());
    true
}

/// Reads `major.minor.patch`.
pub fn parse_core(s: &[u8]) -> (r: Option<(u64, u64, u64)>)
    ensures
        r == core_of(s@),
{
    let parts = split(s, 46);
    let ghost f = fields(s@, 46);
    assert(f.len() == parts@.len());
    if parts.len() != 3 {
        return None;
    }
    assert(parts@[0]@ == f[0] && parts@[1]@ == f[1] && parts@[2]@ == f[2]);
    let major = parse_number(parts[0].as_slice());
    let minor = parse_number(parts[1].as_slice());
    let patch = parse_number(parts[2].as_slice());
    match (major, minor, patch) {
        (Some(a), Some(b), Some(c)) => Some((a, b, c)),
        _ => None,
    }
}

/// Reads a version from its written form.
pub fn parse_version(s: &[u8]) -> (r: Option<Version>)
    ensures
        match r {
            Some(v) => version_of(s@) == Some(v@),
            None => version_of(s@) is None,
        },
{
    let n = s.len();
    let plus = find(s, 43);
    let head = slice_subrange(s, 0, plus);
    assert(head@ =~= s@.take(plus as int));
    if plus < n {
        let build = slice_subrange(s, plus + 1, n);
        assert(build@ =~= s@.skip(plus + 1));
        if !check_build(build) {
            return None;
        }
    }
    let dash = find(head, 45);
    let core_text = slice_subrange(head, 0, dash);
    assert(core_text@ =~= head@.take(dash as int));
    let core = match parse_core(core_text) {
        Some(c) => c,
        None => {
            return None;
        },
    };
    let pre = if dash < head.len() {
        let tag_text = slice_subrange(head, dash + 1, head.len());
        assert(tag_text@ =~= head@.skip(dash + 1));
        match parse_tag(tag_text) {
            Some(t) => t,
            None => {
                return None;
            },
        }
    } else {
        Vec::new()
    };
    let v = Version { major: core.0, minor: core.1, patch: core.2, pre };
    proof {
        assert(v@.pre =~= identifier_views(pre@));
        assert(version_of(s@)->0.pre =~= v@.pre);
    }
    Some(v)
}

impl Version {
    /// Reads a version from text such as `1.22.19` or `4.0.0-rc.50`.
    pub fn parse(text: &str) -> (r: Option<Version>)
        ensures
            match r {
                Some(v) => version_of(text.spec_bytes()) == Some(v@),
                None => version_of(text.spec_bytes()) is None,
            },
    {
        parse_version(text.as_bytes())
    }
}

} // verus!
