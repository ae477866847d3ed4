//! Event keys and the registry's error taxonomy.
//!
//! An event key names one operation as a (provider, feature, method)
//! triple. The triple is canonicalized to a single string by joining
//! the parts with `::`; components must be non-empty and must not
//! contain `:`, so that no two distinct triples share a canonical
//! string.

use vstd::prelude::*;
use vstd::string::StrSliceExecFns;
use vstd::string::StringExecFns;

verus! {

broadcast use
    vstd::seq::group_seq_axioms,
    vstd::string::group_string_axioms;

/// Errors that registration and dispatch can produce.
#[derive(Debug)]
pub enum EventError {
    /// No handler is registered under the canonical key carried here.
    HandlerNotFound(String),
    /// The handler ran and failed, or a foreign call failed; carries
    /// the original message unchanged.
    ExecutionFailed(String),
    /// A payload or a key component had the wrong shape.
    InvalidPayload(String),
}

pub open spec fn handler_not_found_text(key: Seq<char>) -> Seq<char> {
    "Handler not found for event: "@ + key
}

pub open spec fn execution_failed_text(msg: Seq<char>) -> Seq<char> {
    "Execution failed: "@ + msg
}

pub open spec fn invalid_payload_text(msg: Seq<char>) -> Seq<char> {
    "Invalid payload: "@ + msg
}

impl EventError {
    /// The error rendered as one line of text.
    pub fn message(&self) -> (r: String)
        ensures
            r@ == match self {
                EventError::HandlerNotFound(k) => handler_not_found_text(k@),
                EventError::ExecutionFailed(m) => execution_failed_text(m@),
                EventError::InvalidPayload(m) => invalid_payload_text(m@),
            },
    {
        match self {
            EventError::HandlerNotFound(k) => {
                let mut s = String::from_str("Handler not found for event: ");
                s.append(k.as_str());
                s
            },
            EventError::ExecutionFailed(m) => {
                let mut s = String::from_str("Execution failed: ");
                s.append(m.as_str());
                s
            },
            EventError::InvalidPayload(m) => {
                let mut s = String::from_str("Invalid payload: ");
                s.append(m.as_str());
                s
            },
        }
    }
}

/// A component of an event key is valid when it is non-empty and
/// contains no colon; the canonical form joins components with `::`,
/// so a colon inside a component could make two triples collide.
pub open spec fn valid_component(s: Seq<char>) -> bool {
    s.len() > 0 && forall|i: int| 0 <= i < s.len() ==> s[i] != ':'
}

/// The separator of the canonical form.
pub open spec fn key_sep() -> Seq<char> {
    seq![':', ':']
}

/// The canonical string of a (provider, feature, method) triple.
pub open spec fn canonical_key(p: Seq<char>, f: Seq<char>, m: Seq<char>) -> Seq<char> {
    p + key_sep() + f + key_sep() + m
}

/// Message carried by the error that `EventKey::new` returns.
pub open spec fn invalid_key_text() -> Seq<char> {
    "event key components must be non-empty and must not contain ':'"@
}

/// Identifies one registered operation.
pub struct EventKey {
    pub provider: String,
    pub feature: String,
    pub method: String,
}

impl EventKey {
    /// All three components are valid.
    pub open spec fn valid(self) -> bool {
        valid_component(self.provider@) && valid_component(self.feature@)
            && valid_component(self.method@)
    }

    /// The canonical string of this key.
    pub open spec fn canon(self) -> Seq<char> {
        canonical_key(self.provider@, self.feature@, self.method@)
    }

    /// Builds a key from its three components, validating each:
    /// a component must be non-empty and must not contain `:`.
    pub fn new(provider: &str, feature: &str, method: &str) -> (r: Result<EventKey, EventError>)
        ensures
            match r {
                Ok(k) => k.valid() && k.provider@ == provider@ && k.feature@ == feature@
                    && k.method@ == method@,
                Err(e) => {
                    &&& !(valid_component(provider@) && valid_component(feature@)
                        && valid_component(method@))
                    &&& e matches EventError::InvalidPayload(m) && m@ == invalid_key_text()
                },
            },
    {
        if component_ok(provider) && component_ok(feature) && component_ok(method) {
            Ok(EventKey {
                provider: provider.to_owned(),
                feature: feature.to_owned(),
                method: method.to_owned(),
            })
        } else {
            Err(EventError::InvalidPayload(String::from_str(
                "event key components must be non-empty and must not contain ':'",
            )))
        }
    }

    /// The canonical string: the components joined with `::`.
    pub fn to_string(&self) -> (r: String)
        ensures
            r@ == self.canon(),
    {
        proof {
            reveal_strlit("::");
            assert("::"@ =~= key_sep());
        }
        let mut s = String::new();
        s.append(self.provider.as_str());
        s.append("::");
        s.append(self.feature.as_str());
        s.append("::");
        s.append(self.method.as_str());
        proof {
            assert(s@ =~= self.canon());
        }
        s
    }
}

/// Builds a key whose components are known to be valid.
pub fn must_key(provider: &str, feature: &str, method: &str) -> (r: EventKey)
    requires
        valid_component(provider@),
        valid_component(feature@),
        valid_component(method@),
    ensures
        r.valid(),
        r.provider@ == provider@,
        r.feature@ == feature@,
        r.method@ == method@,
{
    match EventKey::new(provider, feature, method) {
        Ok(k) => k,
        Err(_) => vstd::pervasive::unreached(),
    }
}

/// True exactly when the string is a valid key component.
pub fn component_ok(s: &str) -> (r: bool)
    ensures
        r == valid_component(s@),
{
    let n = s.unicode_len();
    if n == 0 {
        return false;
    }
    let mut i: usize = 0;
    while i < n
        invariant
            n == s@.len(),
            i <= n,
            forall|j: int| 0 <= j < i ==> s@[j] != ':',
        decreases n - i,
    {
        if s.get_char(i) == ':' {
            return false;
        }
        i += 1;
    }
    true
}

/// Splitting at the separator is unambiguous: if two colon-free
/// prefixes are followed by `::` and arbitrary tails, equal strings
/// force equal prefixes and equal tails.
proof fn lemma_sep_split(a: Seq<char>, x: Seq<char>, b: Seq<char>, y: Seq<char>)
    requires
        valid_component(a),
        valid_component(b),
        a + key_sep() + x == b + key_sep() + y,
    ensures
        a == b,
        x == y,
{
    let s = a + key_sep() + x;
    let t = b + key_sep() + y;
    assert(s.len() == a.len() + 2 + x.len());
    assert(t.len() == b.len() + 2 + y.len());
    if a.len() < b.len() {
        assert(s[a.len() as int] == ':');
        assert(t[a.len() as int] == b[a.len() as int]);
        assert(false);
    }
    if b.len() < a.len() {
        assert(t[b.len() as int] == ':');
        assert(s[b.len() as int] == a[b.len() as int]);
        assert(false);
    }
    assert(a =~= b) by {
        assert forall|i: int| 0 <= i < a.len() implies a[i] == b[i] by {
            assert(s[i] == a[i]);
            assert(t[i] == b[i]);
        }
    }
    assert(x =~= y) by {
        assert forall|i: int| 0 <= i < x.len() implies x[i] == y[i] by {
            assert(s[a.len() + 2 + i] == x[i]);
            assert(t[b.len() + 2 + i] == y[i]);
        }
    }
}

/// Canonicalization is injective: two valid triples with the same
/// canonical string are the same triple.
pub proof fn lemma_canonical_key_injective(
    p1: Seq<char>, f1: Seq<char>, m1: Seq<char>,
    p2: Seq<char>, f2: Seq<char>, m2: Seq<char>,
)
    requires
        valid_component(p1),
        valid_component(f1),
        valid_component(m1),
        valid_component(p2),
        valid_component(f2),
        valid_component(m2),
        canonical_key(p1, f1, m1) == canonical_key(p2, f2, m2),
    ensures
        p1 == p2,
        f1 == f2,
        m1 == m2,
{
    assert(canonical_key(p1, f1, m1) =~= p1 + key_sep() + (f1 + key_sep() + m1));
    assert(canonical_key(p2, f2, m2) =~= p2 + key_sep() + (f2 + key_sep() + m2));
    lemma_sep_split(p1, f1 + key_sep() + m1, p2, f2 + key_sep() + m2);
    lemma_sep_split(f1, m1, f2, m2);
}

} // verus!
