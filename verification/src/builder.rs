//! A fluent builder for CPI plugins: name and version, declared
//! features, and method registration against an explicit registry.

use vstd::prelude::*;
use crate::feature::Plugin;
use crate::keys::EventError;
use crate::keys::canonical_key;
use crate::keys::execution_failed_text;
use crate::keys::must_key;
use crate::keys::valid_component;
use crate::registry::EventRegistry;
use crate::registry::missing_feature_text;

verus! {

broadcast use
    vstd::std_specs::vec::group_vec_axioms,
    vstd::seq::group_seq_axioms,
    vstd::seq_lib::group_seq_lib_default;

/// Collects a CPI plugin's name, version and declared features while
/// its methods are registered, then validates the declaration and
/// builds the plugin.
pub struct CpiBuilder {
    pub name: String,
    pub version: String,
    pub declared_features: Vec<String>,
}

/// A built CPI plugin: its identity and the features it declared.
pub struct CpiPlugin {
    pub name: String,
    pub version: String,
    pub declared_features: Vec<String>,
}

impl CpiBuilder {
    /// An empty builder.
    pub fn new() -> (r: CpiBuilder)
        ensures
            r.name@ == Seq::<char>::empty(),
            r.version@ == Seq::<char>::empty(),
            r.declared_features@.len() == 0,
    {
        CpiBuilder { name: String::new(), version: String::new(), declared_features: Vec::new() }
    }

    /// Sets the plugin's name.
    pub fn with_name(self, name: &str) -> (r: CpiBuilder)
        ensures
            r.name@ == name@,
            r.version == self.version,
            r.declared_features == self.declared_features,
    {
        CpiBuilder { name: name.to_owned(), ..self }
    }

    /// Sets the plugin's version.
    pub fn with_version(self, version: &str) -> (r: CpiBuilder)
        ensures
            r.version@ == version@,
            r.name == self.name,
            r.declared_features == self.declared_features,
    {
        CpiBuilder { version: version.to_owned(), ..self }
    }

    /// Declares one feature the plugin claims to support.
    pub fn add_feature(self, feature: &str) -> (r: CpiBuilder)
        ensures
            r.name == self.name,
            r.version == self.version,
            r.declared_features.deep_view() == self.declared_features.deep_view().push(feature@),
    {
        let mut declared = self.declared_features;
        let ghost pre = declared.deep_view();
        declared.push(feature.to_owned());
        proof {
            assert(declared.deep_view() =~= pre.push(feature@));
        }
        CpiBuilder { name: self.name, version: self.version, declared_features: declared }
    }

    /// Registers one handler under (this plugin's name, feature,
    /// method) and hands the builder back for chaining.
    pub fn add_method<H>(
        self,
        registry: &mut EventRegistry<H>,
        feature: &str,
        method: &str,
        handler: H,
    ) -> (r: CpiBuilder)
        requires
            old(registry).wf(),
            valid_component(self.name@),
            valid_component(feature@),
            valid_component(method@),
        ensures
            r == self,
            final(registry).wf(),
            final(registry).handler_map() == old(registry).handler_map().insert(
                canonical_key(self.name@, feature@, method@),
                handler,
            ),
            final(registry).feature_map() == old(registry).feature_map().insert(
                self.name@,
                old(registry).features_of(self.name@).push(feature@),
            ),
    {
        let key = must_key(self.name.as_str(), feature, method);
        registry.register_handler(&key, handler);
        self
    }

    /// Checks the declaration against what was actually registered:
    /// succeeds exactly when every declared feature has at least one
    /// registered method under this plugin's name; fails on the first
    /// that does not, with the validation error's text.
    pub fn validate<H>(&self, registry: &EventRegistry<H>) -> (r: Result<(), String>)
        ensures
            r is Ok <==> (forall|i: int|
                0 <= i < self.declared_features.deep_view().len() ==> registry.features_of(
                    self.name@,
                ).contains(#[trigger] self.declared_features.deep_view()[i])),
            r matches Err(s) ==> exists|i: int|
                #![auto]
                {
                    &&& 0 <= i < self.declared_features.deep_view().len()
                    &&& !registry.features_of(self.name@).contains(
                        self.declared_features.deep_view()[i],
                    )
                    &&& s@ == execution_failed_text(
                        missing_feature_text(self.name@, self.declared_features.deep_view()[i]),
                    )
                },
    {
        let declared = self.declared_features.as_slice();
        proof {
            assert(declared.deep_view() =~= self.declared_features.deep_view());
        }
        match registry.validate_provider(self.name.as_str(), declared) {
            Ok(()) => Ok(()),
            Err(e) => {
                let msg = e.message();
                proof {
                    assert(e matches EventError::ExecutionFailed(_));
                }
                Err(msg)
            },
        }
    }

    /// Validates the declaration and builds the plugin; a failed
    /// validation hands the error text back and builds nothing.
    pub fn build<H>(self, registry: &EventRegistry<H>) -> (r: Result<CpiPlugin, String>)
        ensures
            match r {
                Ok(p) => {
                    &&& p.name == self.name
                    &&& p.version == self.version
                    &&& p.declared_features == self.declared_features
                    &&& forall|i: int|
                        0 <= i < self.declared_features.deep_view().len()
                            ==> registry.features_of(self.name@).contains(
                            #[trigger] self.declared_features.deep_view()[i],
                        )
                },
                Err(_) => !(forall|i: int|
                    0 <= i < self.declared_features.deep_view().len() ==> registry.features_of(
                        self.name@,
                    ).contains(#[trigger] self.declared_features.deep_view()[i])),
            },
    {
        match self.validate(registry) {
            Ok(()) => Ok(
                CpiPlugin {
                    name: self.name,
                    version: self.version,
                    declared_features: self.declared_features,
                },
            ),
            Err(msg) => Err(msg),
        }
    }
}

impl Plugin for CpiPlugin {
    open spec fn spec_name(&self) -> Seq<char> {
        self.name@
    }

    open spec fn spec_version(&self) -> Seq<char> {
        self.version@
    }

    open spec fn spec_declared_features(&self) -> Seq<Seq<char>> {
        self.declared_features.deep_view()
    }

    fn name(&self) -> (r: &str) {
        self.name.as_str()
    }

    fn version(&self) -> (r: &str) {
        self.version.as_str()
    }

    fn declared_features(&self) -> (r: Vec<String>) {
        let ghost all = self.declared_features.deep_view();
        let mut out: Vec<String> = Vec::new();
        let mut i: usize = 0;
        while i < self.declared_features.len()
            invariant
                i <= self.declared_features@.len(),
                all == self.declared_features.deep_view(),
                out.deep_view() == all.take(i as int),
            decreases self.declared_features@.len() - i,
        {
            let ghost pre = out.deep_view();
            out.push(self.declared_features[i].clone());
            proof {
                assert(out.deep_view() =~= pre.push(all[i as int]));
                assert(all.take(i as int + 1) =~= all.take(i as int).push(all[i as int]));
            }
            i += 1;
        }
        proof {
            assert(all.take(self.declared_features@.len() as int) =~= all);
        }
        out
    }
}

} // verus!
