//! Version ranges such as `1.22.x`.

use vstd::prelude::*;
use vstd::string::StringSliceAdditionalSpecFns;
use crate::text::fields;
use crate::text::number_of;
use crate::text::parse_number;
use crate::text::split;
use crate::text::trim;
use crate::text::trimmed;
use crate::text::byte_views;
use crate::version::Version;
use crate::version::VersionView;

verus! {

/// A range of releases: each of major, minor and patch is either fixed or
/// left open. `1.22.x` fixes major and minor and leaves the patch open.
#[derive(Clone, Copy, Debug, PartialEq, Eq)]
pub struct Constraint {
    pub major: Option<u64>,
    pub minor: Option<u64>,
    pub patch: Option<u64>,
}

/// A field that leaves its number open: `x`, `X` or `*`.
pub open spec fn is_wildcard(s: Seq<u8>) -> bool {
    s.len() == 1 && (s[0] == 120 || s[0] == 88 || s[0] == 42)
}

/// What one field of a range denotes: an open slot, a number, or nothing
/// if the field is neither.
pub open spec fn slot_of(s: Seq<u8>) -> Option<Option<u64>> {
    if is_wildcard(s) {
        Some(None)
    } else {
        match number_of(s) {
            Some(n) => Some(Some(n)),
            None => None,
        }
    }
}

/// The range that `s` denotes: one to three fields between dots, blanks
/// around them ignored, fields left out taken as open, and no number after
/// an open field.
pub open spec fn constraint_of(s: Seq<u8>) -> Option<Constraint> {
    let f = fields(trimmed(s), 46);
    let major = slot_of(f[0]);
    let minor = if f.len() > 1 {
        slot_of(f[1])
    } else {
        Some(None)
    };
    let patch = if f.len() > 2 {
        slot_of(f[2])
    } else {
        Some(None)
    };
    match (major, minor, patch) {
        (Some(a), Some(b), Some(c)) if 1 <= f.len() <= 3 && (Constraint {
            major: a,
            minor: b,
            patch: c,
        }).is_range() => Some(Constraint { major: a, minor: b, patch: c }),
        _ => None,
    }
}

fn parse_slot(s: &[u8]) -> (r: Option<Option<u64>>)
    ensures
        r == slot_of(s@),
{
    if s.len() == 1 && (s[0] == 120 || s[0] == 88 || s[0] == 42) {
        Some(None)
    } else {
        match parse_number(s) {
            Some(n) => Some(Some(n)),
            None => None,
        }
    }
}

/// Reads a range from its written form.
pub fn parse_constraint(s: &[u8]) -> (r: Option<Constraint>)
    ensures
        r == constraint_of(s@),
{
    let parts = split(trim(s), 46);
    let ghost f = fields(trimmed(s@), 46);
    assert(f.len() == parts@.len());
    let n = parts.len();
    if n < 1 || n > 3 {
        return None;
    }
    assert(parts@[0]@ == f[0]);
    let major = match parse_slot(parts[0].as_slice()) {
        Some(slot) => slot,
        None => {
            return None;
        },
    };
    let minor = if n > 1 {
        assert(parts@[1]@ == f[1]);
        match parse_slot(parts[1].as_slice()) {
            Some(slot) => slot,
            None => {
                return None;
            },
        }
    } else {
        None
    };
    let patch = if n > 2 {
        assert(parts@[2]@ == f[2]);
        match parse_slot(parts[2].as_slice()) {
            Some(slot) => slot,
            None => {
                return None;
            },
        }
    } else {
        None
    };
    let c = Constraint { major, minor, patch };
    if c.well_formed() {
        Some(c)
    } else {
        None
    }
}

impl Constraint {
    /// No number follows an open slot.
    pub open spec fn is_range(self) -> bool {
        &&& self.minor is Some ==> self.major is Some
        &&& self.patch is Some ==> self.minor is Some
    }

    /// The releases in the range: those without a pre-release tag whose
    /// numbers equal the fixed ones.
    pub open spec fn admits(self, v: VersionView) -> bool {
        &&& v.pre.len() == 0
        &&& (self.major matches Some(m) ==> v.major == m)
        &&& (self.minor matches Some(m) ==> v.minor == m)
        &&& (self.patch matches Some(m) ==> v.patch == m)
    }

    /// Whether no number follows an open slot.
    pub fn well_formed(&self) -> (r: bool)
        ensures
            r == self.is_range(),
    {
        (self.minor.is_none() || self.major.is_some()) && (self.patch.is_none()
            || self.minor.is_some())
    }

    /// Whether `v` lies in the range.
    pub fn allows(&self, v: &Version) -> (r: bool)
        ensures
            r == self.admits(v@),
    {
        if !v.is_release() {
            return false;
        }
        let major_ok = match self.major {
            Some(m) => v.major == m,
            None => true,
        };
        let minor_ok = match self.minor {
            Some(m) => v.minor == m,
            None => true,
        };
        let patch_ok = match self.patch {
            Some(m) => v.patch == m,
            None => true,
        };
        major_ok && minor_ok && patch_ok
    }

    /// The range used when a project declares none: `1.22.x`.
    pub open spec fn default_range() -> Constraint {
        Constraint { major: Some(1), minor: Some(22), patch: None }
    }

    /// The range used when a project declares none: `1.22.x`.
    pub fn fallback() -> (r: Constraint)
        ensures
            r == Constraint::default_range(),
            r.is_range(),
    {
        Constraint { major: Some(1), minor: Some(22), patch: None }
    }

    /// Reads a range from text such as `1.22.x`, `2.x` or `*`.
    pub fn parse(text: &str) -> (r: Option<Constraint>)
        ensures
            r == constraint_of(text.spec_bytes()),
    {
        parse_constraint(text.as_bytes())
    }
}

} // verus!
