//! Runtime value shapes shared by every site: symbols, capability names,
//! expression trees and the error type, each with a mathematical view.

use vstd::prelude::*;

verus! {

/// Runtime codec identifier.
#[derive(Clone, Copy, Debug, PartialEq, Eq)]
pub struct CodecId(pub u32);

/// A capability name such as `auto/diagnostics/read`.
#[derive(Clone, Debug, PartialEq, Eq)]
pub struct CapabilityName {
    name: String,
}

impl View for CapabilityName {
    type V = Seq<char>;

    closed spec fn view(&self) -> Seq<char> {
        self.name@
    }
}

impl CapabilityName {
    /// Builds a capability name from its text.
    pub fn new(name: &str) -> (r: Self)
        ensures
            r@ == name@,
    {
        CapabilityName { name: name.to_owned() }
    }

    /// Builds a capability name from owned text.
    pub fn from_string(name: String) -> (r: Self)
        ensures
            r@ == name@,
    {
        CapabilityName { name }
    }

    /// The capability text.
    pub fn as_str(&self) -> (r: &str)
        ensures
            r@ == self@,
    {
        self.name.as_str()
    }

    /// A copy of this name.
    pub fn duplicate(&self) -> (r: Self)
        ensures
            r@ == self@,
    {
        CapabilityName { name: self.name.clone() }
    }

    /// Whether two names spell the same capability.
    pub fn same(&self, other: &CapabilityName) -> (r: bool)
        ensures
            r == (self@ == other@),
    {
        self.name == other.name
    }
}

/// The views of a sequence of capability names.
pub open spec fn cap_views(caps: Seq<CapabilityName>) -> Seq<Seq<char>> {
    caps.map_values(|c: CapabilityName| c@)
}

/// Copies a list of capability names.
pub fn duplicate_caps(caps: &[CapabilityName]) -> (r: Vec<CapabilityName>)
    ensures
        cap_views(r@) == cap_views(caps@),
{
    let mut r: Vec<CapabilityName> = Vec::new();
    let mut i: usize = 0;
    while i < caps.len()
        invariant
            i <= caps@.len(),
            r@.len() == i,
            forall|j: int| 0 <= j < i ==> #[trigger] r@[j]@ == caps@[j]@,
        decreases caps@.len() - i,
    {
        r.push(caps[i].duplicate());
        i = i + 1;
    }
    assert(cap_views(r@) =~= cap_views(caps@));
    r
}

/// Whether `caps` holds a capability spelled `name`.
pub open spec fn holds_cap(caps: Seq<CapabilityName>, name: Seq<char>) -> bool {
    exists|i: int| 0 <= i < caps.len() && #[trigger] caps[i]@ == name
}

/// Whether `caps` holds a capability spelled `name`.
pub fn has_cap(caps: &[CapabilityName], name: &CapabilityName) -> (r: bool)
    ensures
        r == holds_cap(caps@, name@),
{
    let mut i: usize = 0;
    while i < caps.len()
        invariant
            i <= caps@.len(),
            forall|j: int| 0 <= j < i ==> #[trigger] caps@[j]@ != name@,
        decreases caps@.len() - i,
    {
        if caps[i].same(name) {
            return true;
        }
        i = i + 1;
    }
    false
}

/// Errors raised by the automotive sites.
#[derive(Clone, Debug, PartialEq, Eq)]
pub enum Error {
    /// An evaluation-level failure with an operator-facing message.
    Eval(String),
    /// A codec rejected its input.
    CodecError {
        /// Codec that rejected the input.
        codec: CodecId,
        /// Operator-facing message.
        message: String,
    },
    /// A required capability was not granted.
    CapabilityDenied {
        /// The missing capability.
        capability: CapabilityName,
    },
}

/// Result type of the automotive sites.
pub type Result<T> = core::result::Result<T, Error>;

/// Builds an evaluation error from literal text.
pub fn eval_error(message: &str) -> (e: Error)
    ensures
        e is Eval,
        e->Eval_0@ == message@,
{
    Error::Eval(message.to_owned())
}

/// Builds a capability-denied error.
pub fn denied(capability: &CapabilityName) -> (e: Error)
    ensures
        e is CapabilityDenied,
        e->capability@ == capability@,
{
    Error::CapabilityDenied { capability: capability.duplicate() }
}

/// A set of granted capabilities.
#[derive(Clone, Debug, PartialEq, Eq)]
pub struct CapabilitySet {
    caps: Vec<CapabilityName>,
}

impl View for CapabilitySet {
    type V = Set<Seq<char>>;

    closed spec fn view(&self) -> Set<Seq<char>> {
        Set::new(|c: Seq<char>| holds_cap(self.caps@, c))
    }
}

impl CapabilitySet {
    /// The empty set.
    pub fn new() -> (r: Self)
        ensures
            r@ == Set::<Seq<char>>::empty(),
    {
        let r = CapabilitySet { caps: Vec::new() };
        assert(r@ =~= Set::<Seq<char>>::empty());
        r
    }

    /// The set with `capability` added.
    pub fn grant(self, capability: CapabilityName) -> (r: Self)
        ensures
            r@ == self@.insert(capability@),
    {
        let mut caps = self.caps;
        let ghost old_caps = caps@;
        caps.push(capability);
        let r = CapabilitySet { caps };
        proof {
            assert forall|c: Seq<char>| r@.contains(c) <==> self@.insert(capability@).contains(c) by {
                if holds_cap(old_caps, c) {
                    let i = choose|i: int| 0 <= i < old_caps.len() && #[trigger] old_caps[i]@ == c;
                    assert(r.caps@[i] == old_caps[i]);
                }
                if holds_cap(r.caps@, c) && c != capability@ {
                    let i = choose|i: int| 0 <= i < r.caps@.len() && #[trigger] r.caps@[i]@ == c;
                    assert(i < old_caps.len());
                    assert(old_caps[i] == r.caps@[i]);
                }
                if c == capability@ {
                    assert(r.caps@[old_caps.len() as int]@ == c);
                }
            }
            assert(r@ =~= self@.insert(capability@));
        }
        r
    }

    /// Whether the set holds `capability`.
    pub fn contains(&self, capability: &CapabilityName) -> (r: bool)
        ensures
            r == self@.contains(capability@),
    {
        has_cap(self.caps.as_slice(), capability)
    }
}

/// The set of capabilities spelled by a list.
pub open spec fn cap_set(caps: Seq<CapabilityName>) -> Set<Seq<char>> {
    Set::new(|c: Seq<char>| holds_cap(caps, c))
}

/// Collects a list of capabilities into a set.
pub fn capability_set(caps: &[CapabilityName]) -> (r: CapabilitySet)
    ensures
        r@ == cap_set(caps@),
{
    let mut r = CapabilitySet::new();
    let mut i: usize = 0;
    while i < caps.len()
        invariant
            i <= caps@.len(),
            r@ == cap_set(caps@.subrange(0, i as int)),
        decreases caps@.len() - i,
    {
        r = r.grant(caps[i].duplicate());
        proof {
            let a = caps@.subrange(0, i as int);
            let b = caps@.subrange(0, i + 1);
            assert forall|c: Seq<char>| cap_set(b).contains(c) <==> cap_set(a).insert(caps@[i as int]@).contains(c) by {
                if holds_cap(a, c) {
                    let k = choose|k: int| 0 <= k < a.len() && #[trigger] a[k]@ == c;
                    assert(b[k] == a[k]);
                }
                if holds_cap(b, c) && c != caps@[i as int]@ {
                    let k = choose|k: int| 0 <= k < b.len() && #[trigger] b[k]@ == c;
                    assert(k < a.len());
                    assert(a[k] == b[k]);
                }
                if c == caps@[i as int]@ {
                    assert(b[i as int] == caps@[i as int]);
                }
            }
            assert(cap_set(b) =~= cap_set(a).insert(caps@[i as int]@));
        }
        i = i + 1;
    }
    assert(caps@.subrange(0, caps@.len() as int) =~= caps@);
    r
}

/// The capabilities held by both sets.
pub fn diminish(current: &CapabilitySet, allowed: &CapabilitySet) -> (r: CapabilitySet)
    ensures
        r@ == current@.intersect(allowed@),
{
    let mut r = CapabilitySet::new();
    let mut i: usize = 0;
    let n = current.caps.len();
    while i < n
        invariant
            n == current.caps@.len(),
            i <= n,
            r@ == cap_set(current.caps@.subrange(0, i as int)).intersect(allowed@),
        decreases n - i,
    {
        let c = &current.caps[i];
        let ghost a = current.caps@.subrange(0, i as int);
        let ghost b = current.caps@.subrange(0, i + 1);
        proof {
            assert forall|x: Seq<char>| cap_set(b).contains(x) <==> cap_set(a).insert(current.caps@[i as int]@).contains(x) by {
                if holds_cap(a, x) {
                    let k = choose|k: int| 0 <= k < a.len() && #[trigger] a[k]@ == x;
                    assert(b[k] == a[k]);
                }
                if holds_cap(b, x) && x != current.caps@[i as int]@ {
                    let k = choose|k: int| 0 <= k < b.len() && #[trigger] b[k]@ == x;
                    assert(k < a.len());
                    assert(a[k] == b[k]);
                }
                if x == current.caps@[i as int]@ {
                    assert(b[i as int] == current.caps@[i as int]);
                }
            }
            assert(cap_set(b) =~= cap_set(a).insert(current.caps@[i as int]@));
        }
        if allowed.contains(c) {
            r = r.grant(c.duplicate());
            assert(r@ =~= cap_set(b).intersect(allowed@));
        } else {
            assert(r@ =~= cap_set(b).intersect(allowed@));
        }
        i = i + 1;
    }
    proof {
        assert(current.caps@.subrange(0, n as int) =~= current.caps@);
        assert(cap_set(current.caps@) =~= current@);
    }
    r
}

} // verus!
