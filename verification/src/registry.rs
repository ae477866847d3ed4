//! The event registry: the single source of truth mapping event keys
//! to handlers.
//!
//! Handlers are stored in an append-only slot store; two concurrent
//! maps resolve canonical key strings to slots and record, per
//! provider, the features it has registered under. Registering under
//! an existing key replaces the handler (last writer wins); dispatch
//! looks the handler up and invokes it without holding any lock while
//! the handler runs.

use vstd::prelude::*;
use vstd::string::StringExecFns;
use crate::json::JsonValue;
use crate::json::str_eq;
use crate::keys::EventError;
use crate::keys::EventKey;
use crate::sync_map::FeatureTable;
use crate::sync_map::KeyIndexMap;
use crate::sync_map::empty_feature_table;
use crate::sync_map::feature_table_view;
use crate::sync_map::features_or_empty;
use crate::sync_map::key_index_view;

verus! {

broadcast use
    vstd::std_specs::vec::group_vec_axioms,
    vstd::seq::group_seq_axioms,
    vstd::seq_lib::group_seq_lib_default;

/// How dispatch wraps a handler's outcome: a success is returned as
/// it is, a failure message is wrapped into `ExecutionFailed` with
/// the message unchanged.
pub open spec fn wraps_outcome(out: Result<JsonValue, String>, r: Result<
    JsonValue,
    EventError,
>) -> bool {
    match out {
        Ok(v) => r matches Ok(rv) && rv@ == v@,
        Err(m) => r matches Err(e) && (e matches EventError::ExecutionFailed(s) && s@ == m@),
    }
}

/// Text of the error that `validate_provider` returns for a declared
/// feature with no registered handlers.
pub open spec fn missing_feature_text(provider: Seq<char>, feature: Seq<char>) -> Seq<char> {
    "Provider '"@ + provider + "' declared feature '"@ + feature
        + "' but no handlers registered"@
}

/// Concurrent map from event keys to handlers, with a per-provider
/// record of registered feature names.
///
/// `H` is the handler type; the registry never invokes a handler on
/// its own, dispatch is handed an invoker for it.
pub struct EventRegistry<H> {
    handlers: Vec<H>,
    keys: KeyIndexMap,
    features: FeatureTable,
}

impl<H> EventRegistry<H> {
    /// The registered handlers, keyed by canonical key string.
    pub closed spec fn handler_map(self) -> Map<Seq<char>, H> {
        Map::new(
            |k: Seq<char>| key_index_view(self.keys).dom().contains(k),
            |k: Seq<char>| self.handlers@[key_index_view(self.keys)[k] as int],
        )
    }

    /// The per-provider record of registered feature names.
    pub closed spec fn feature_map(self) -> Map<Seq<char>, Seq<Seq<char>>> {
        feature_table_view(self.features)
    }

    /// The feature names registered for one provider, in order, with
    /// repetitions kept.
    pub open spec fn features_of(self, provider: Seq<char>) -> Seq<Seq<char>> {
        features_or_empty(self.feature_map(), provider)
    }

    /// Every key slot points into the handler store.
    pub closed spec fn wf(self) -> bool {
        forall|k: Seq<char>| #[trigger]
            key_index_view(self.keys).dom().contains(k) ==> key_index_view(self.keys)[k]
                < self.handlers@.len()
    }

    /// An empty registry: no handlers, no features.
    pub fn new() -> (r: EventRegistry<H>)
        ensures
            r.wf(),
            r.handler_map() == Map::<Seq<char>, H>::empty(),
            r.feature_map() == empty_feature_table(),
    {
        let r = EventRegistry {
            handlers: Vec::new(),
            keys: KeyIndexMap::new(),
            features: FeatureTable::new(),
        };
        proof {
            assert(r.handler_map() =~= Map::<Seq<char>, H>::empty());
        }
        r
    }

    /// Inserts or replaces the handler for a key, and records the
    /// key's feature for the key's provider. Replacement is last
    /// writer wins: the previous handler for the same key is no
    /// longer reachable. No entry for any other key changes. Only a
    /// valid key may be registered: canonicalization is injective on
    /// valid keys, so no two registered triples can share an entry.
    pub fn register_handler(&mut self, key: &EventKey, handler: H)
        requires
            old(self).wf(),
            key.valid(),
        ensures
            final(self).wf(),
            final(self).handler_map() == old(self).handler_map().insert(key.canon(), handler),
            final(self).feature_map() == old(self).feature_map().insert(
                key.provider@,
                old(self).features_of(key.provider@).push(key.feature@),
            ),
    {
        let canon = key.to_string();
        let slot = self.handlers.len();
        self.handlers.push(handler);
        self.keys.insert(canon, slot);
        self.features.push(key.provider.as_str(), key.feature.clone());
        proof {
            assert(self.handler_map() =~= old(self).handler_map().insert(key.canon(), handler));
        }
    }

    /// Resolves the key and invokes the handler through `invoke`.
    ///
    /// With no handler under the key, returns `HandlerNotFound`
    /// carrying the canonical key string. Otherwise the result is the
    /// handler's own outcome: a success value is passed through
    /// unchanged, and a failure message is wrapped into
    /// `ExecutionFailed` with the message unchanged.
    pub fn dispatch_event<F: Fn(&H, &JsonValue) -> Result<JsonValue, String>>(
        &self,
        key: &EventKey,
        payload: &JsonValue,
        invoke: F,
    ) -> (r: Result<JsonValue, EventError>)
        requires
            self.wf(),
            forall|h: &H, p: &JsonValue| #[trigger] call_requires(invoke, (h, p)),
        ensures
            !self.handler_map().dom().contains(key.canon()) ==> (r matches Err(e)
                && (e matches EventError::HandlerNotFound(s) && s@ == key.canon())),
            self.handler_map().dom().contains(key.canon()) ==> exists|
                out: Result<JsonValue, String>,
            |
                {
                    &&& #[trigger] call_ensures(
                        invoke,
                        (&self.handler_map()[key.canon()], payload),
                        out,
                    )
                    &&& wraps_outcome(out, r)
                },
    {
        let canon = key.to_string();
        match self.keys.get(canon.as_str()) {
            None => Err(EventError::HandlerNotFound(canon)),
            Some(slot) => {
                let h = &self.handlers[slot];
                let out = invoke(h, payload);
                proof {
                    assert(self.handler_map()[key.canon()] == self.handlers@[slot as int]);
                }
                match out {
                    Ok(v) => Ok(v),
                    Err(m) => Err(EventError::ExecutionFailed(m)),
                }
            },
        }
    }

    /// The set of feature names registered for a provider, rendered
    /// as a duplicate-free list in first-registration order; empty
    /// for a provider that never registered.
    pub fn get_provider_features(&self, provider: &str) -> (r: Vec<String>)
        ensures
            r.deep_view() == distinct_features(self.features_of(provider@)),
            r.deep_view().no_duplicates(),
            forall|x: Seq<char>|
                #[trigger] r.deep_view().contains(x) <==> self.features_of(provider@).contains(x),
    {
        let recorded = self.features.get(provider);
        let ghost raw = self.features_of(provider@);
        proof {
            assert(raw.take(0) =~= Seq::<Seq<char>>::empty());
        }
        let mut out: Vec<String> = Vec::new();
        let n = recorded.len();
        let mut i: usize = 0;
        while i < n
            invariant
                i <= n,
                n == recorded@.len(),
                recorded.deep_view() == raw,
                out.deep_view() == distinct_features(raw.take(i as int)),
            decreases n - i,
        {
            proof {
                assert(raw.take(i as int + 1).drop_last() =~= raw.take(i as int));
                assert(raw.take(i as int + 1).last() == raw[i as int]);
                assert(recorded.deep_view()[i as int] == recorded@[i as int]@);
            }
            if !contains_string(&out, recorded[i].as_str()) {
                let ghost pre = out.deep_view();
                out.push(recorded[i].clone());
                proof {
                    assert(out.deep_view() =~= pre.push(raw[i as int]));
                }
            }
            i += 1;
        }
        proof {
            assert(raw.take(n as int) =~= raw);
            lemma_distinct_features_no_duplicates(raw);
            assert forall|x: Seq<char>| #[trigger]
                out.deep_view().contains(x) <==> raw.contains(x) by {
                lemma_distinct_features_members(raw, x);
            }
        }
        out
    }

    /// Checks that every declared feature has at least one registered
    /// handler for the provider. Succeeds exactly when each declared
    /// name appears among the provider's registered features; fails
    /// on the first declared feature that does not, naming it.
    /// Features registered but not declared are not an error.
    pub fn validate_provider(&self, provider: &str, declared_features: &[String]) -> (r: Result<
        (),
        EventError,
    >)
        ensures
            r is Ok <==> (forall|i: int|
                0 <= i < declared_features.deep_view().len() ==> self.features_of(
                    provider@,
                ).contains(#[trigger] declared_features.deep_view()[i])),
            r matches Err(e) ==> exists|i: int|
                #![auto]
                {
                    &&& 0 <= i < declared_features.deep_view().len()
                    &&& !self.features_of(provider@).contains(declared_features.deep_view()[i])
                    &&& forall|j: int|
                        0 <= j < i ==> self.features_of(provider@).contains(
                            #[trigger] declared_features.deep_view()[j],
                        )
                    &&& e matches EventError::ExecutionFailed(s) && s@ == missing_feature_text(
                        provider@,
                        declared_features.deep_view()[i],
                    )
                },
    {
        let registered = self.features.get(provider);
        let n = declared_features.len();
        let mut i: usize = 0;
        while i < n
            invariant
                n == declared_features.deep_view().len(),
                i <= n,
                registered.deep_view() == self.features_of(provider@),
                forall|j: int|
                    0 <= j < i ==> self.features_of(provider@).contains(
                        #[trigger] declared_features.deep_view()[j],
                    ),
            decreases n - i,
        {
            let declared = &declared_features[i];
            if !contains_string(&registered, declared.as_str()) {
                let mut msg = String::from_str("Provider '");
                msg.append(provider);
                msg.append("' declared feature '");
                msg.append(declared.as_str());
                msg.append("' but no handlers registered");
                proof {
                    assert(msg@ =~= missing_feature_text(
                        provider@,
                        declared_features.deep_view()[i as int],
                    ));
                }
                return Err(EventError::ExecutionFailed(msg));
            }
            i += 1;
        }
        Ok(())
    }

    /// Every canonical key with a registered handler, each exactly
    /// once. The order is not specified; it is whatever the key map
    /// yields in this process.
    pub fn list_handlers(&self) -> (r: Vec<String>)
        ensures
            r.deep_view().to_set() == self.handler_map().dom(),
            r.deep_view().no_duplicates(),
    {
        proof {
            assert(self.handler_map().dom() =~= key_index_view(self.keys).dom());
        }
        self.keys.keys()
    }
}

/// True exactly when the list holds a string with this content.
pub fn contains_string(list: &Vec<String>, target: &str) -> (r: bool)
    ensures
        r == list.deep_view().contains(target@),
{
    let n = list.len();
    let mut i: usize = 0;
    while i < n
        invariant
            n == list.deep_view().len(),
            i <= n,
            forall|j: int| 0 <= j < i ==> list.deep_view()[j] != target@,
        decreases n - i,
    {
        if str_eq(list[i].as_str(), target) {
            proof {
                assert(list.deep_view()[i as int] == target@);
            }
            return true;
        }
        i += 1;
    }
    proof {
        assert(!list.deep_view().contains(target@));
    }
    false
}


/// The distinct names of a feature record, in first-registration
/// order: the record read as a set.
pub open spec fn distinct_features(s: Seq<Seq<char>>) -> Seq<Seq<char>>
    decreases s.len(),
{
    if s.len() == 0 {
        Seq::empty()
    } else {
        let prev = distinct_features(s.drop_last());
        if prev.contains(s.last()) {
            prev
        } else {
            prev.push(s.last())
        }
    }
}

/// Reading a record as a set keeps exactly its members.
pub proof fn lemma_distinct_features_members(s: Seq<Seq<char>>, x: Seq<char>)
    ensures
        distinct_features(s).contains(x) <==> s.contains(x),
    decreases s.len(),
{
    if s.len() > 0 {
        let d = s.drop_last();
        let last = s.last();
        lemma_distinct_features_members(d, x);
        let prev = distinct_features(d);
        assert(s.contains(x) <==> (d.contains(x) || x == last)) by {
            if d.contains(x) {
                let k = choose|k: int| 0 <= k < d.len() && d[k] == x;
                assert(s[k] == x);
            }
            if x == last {
                assert(s[s.len() - 1] == x);
            }
            if s.contains(x) {
                let k = choose|k: int| 0 <= k < s.len() && s[k] == x;
                if k < s.len() - 1 {
                    assert(d[k] == x);
                }
            }
        }
        if !prev.contains(last) {
            let grown = prev.push(last);
            assert(grown.contains(x) <==> (prev.contains(x) || x == last)) by {
                if prev.contains(x) {
                    let k = choose|k: int| 0 <= k < prev.len() && prev[k] == x;
                    assert(grown[k] == x);
                }
                if x == last {
                    assert(grown[prev.len() as int] == x);
                }
                if grown.contains(x) {
                    let k = choose|k: int| 0 <= k < grown.len() && grown[k] == x;
                    if k < prev.len() {
                        assert(prev[k] == x);
                    }
                }
            }
        }
    }
}

/// Reading a record as a set yields no duplicates.
pub proof fn lemma_distinct_features_no_duplicates(s: Seq<Seq<char>>)
    ensures
        distinct_features(s).no_duplicates(),
    decreases s.len(),
{
    if s.len() > 0 {
        lemma_distinct_features_no_duplicates(s.drop_last());
        let prev = distinct_features(s.drop_last());
        if !prev.contains(s.last()) {
            let grown = prev.push(s.last());
            assert forall|i: int, j: int|
                0 <= i < grown.len() && 0 <= j < grown.len() && i != j implies grown[i]
                != grown[j] by {
                if i < prev.len() && j < prev.len() {
                    assert(grown[i] == prev[i]);
                    assert(grown[j] == prev[j]);
                } else if i < prev.len() {
                    assert(grown[j] == s.last());
                    assert(prev.contains(prev[i]));
                } else {
                    assert(grown[i] == s.last());
                    assert(prev.contains(prev[j]));
                }
            }
        }
    }
}

/// A handler with fixed behaviour: succeed with a value, fail with a
/// message, or hand the payload back. Useful where a handler's whole
/// behaviour is known up front, and as the smallest exercise of the
/// registry.
pub enum ScriptedHandler {
    /// Always returns this value.
    Succeed(JsonValue),
    /// Always fails with this message.
    Fail(String),
    /// Returns the payload unchanged.
    Echo,
}

/// What a scripted handler answers on a payload.
pub open spec fn scripted_response(h: ScriptedHandler, payload: crate::json::JsonVal) -> Result<
    crate::json::JsonVal,
    Seq<char>,
> {
    match h {
        ScriptedHandler::Succeed(v) => Ok(v@),
        ScriptedHandler::Fail(m) => Err(m@),
        ScriptedHandler::Echo => Ok(payload),
    }
}

impl ScriptedHandler {
    /// Runs the script on a payload.
    pub fn run(&self, payload: &JsonValue) -> (r: Result<JsonValue, String>)
        ensures
            match scripted_response(*self, payload@) {
                Ok(v) => r matches Ok(rv) && rv@ == v,
                Err(m) => r matches Err(rm) && rm@ == m,
            },
    {
        match self {
            ScriptedHandler::Succeed(v) => Ok(v.duplicate()),
            ScriptedHandler::Fail(m) => Err(m.clone()),
            ScriptedHandler::Echo => Ok(payload.duplicate()),
        }
    }
}

/// Registration is visible to dispatch: after a handler is inserted
/// under a key, the registry resolves that key to exactly that
/// handler, so a dispatch issued after the registration completes
/// invokes it.
pub proof fn lemma_register_then_dispatch<H>(
    pre: EventRegistry<H>,
    post: EventRegistry<H>,
    key: EventKey,
    h: H,
)
    requires
        post.handler_map() == pre.handler_map().insert(key.canon(), h),
    ensures
        post.handler_map().dom().contains(key.canon()),
        post.handler_map()[key.canon()] == h,
{
}

/// Re-registration replaces: inserting twice under one key leaves
/// exactly the state of inserting the second handler alone, so
/// dispatch after re-registration observes only the newer handler.
pub proof fn lemma_reregister_replaces<H>(m: Map<Seq<char>, H>, k: Seq<char>, h1: H, h2: H)
    ensures
        m.insert(k, h1).insert(k, h2) == m.insert(k, h2),
        m.insert(k, h2)[k] == h2,
{
    assert(m.insert(k, h1).insert(k, h2) =~= m.insert(k, h2));
}

/// Registering a method under a feature backs that feature: the
/// provider's recorded features then contain it, so validation of a
/// declaration naming it cannot fail on its account.
pub proof fn lemma_registered_feature_is_recorded(
    t: Map<Seq<char>, Seq<Seq<char>>>,
    p: Seq<char>,
    f: Seq<char>,
)
    ensures
        features_or_empty(t.insert(p, features_or_empty(t, p).push(f)), p).contains(f),
{
    let updated = features_or_empty(t, p).push(f);
    assert(updated[updated.len() - 1] == f);
}

} // verus!

