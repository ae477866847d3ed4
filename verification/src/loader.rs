//! The plugin loader: the decision core of the module-loading
//! handshake.
//!
//! Loading a module is a dialogue with foreign code: open the module
//! file, resolve the exported entry points, read the metadata buffer,
//! construct the provider instance, call its registration entry
//! point, and later destroy the instance and unload the module, in
//! that order. The foreign calls themselves run in the host; this
//! machine decides, after each outcome, what may be done next, and it
//! enforces the ownership rules at the boundary: construction and
//! destruction are strictly paired, nothing is used after
//! destruction, and the module is not unloaded while the instance is
//! alive.

use vstd::prelude::*;
use vstd::string::StringExecFns;
use crate::feature::PluginError;
use crate::json::JsonVal;
use crate::json::JsonValue;
use crate::json::arr_view;
use crate::json::arr_view_index;
use crate::json::arr_view_len;
use crate::json::json_of;
use crate::json::parse_json;
use crate::json::spec_get;

verus! {

broadcast use
    vstd::std_specs::vec::group_vec_axioms,
    vstd::seq::group_seq_axioms,
    vstd::seq_lib::group_seq_lib_default;

/// Where one module stands in its lifecycle.
#[derive(Clone, Copy, PartialEq, Eq, Structural, Debug)]
pub enum LoadPhase {
    /// Nothing has been done yet.
    Start,
    /// The module file is being opened.
    Opening,
    /// The module is open; the entry points are being resolved.
    Opened,
    /// All entry points resolved; the metadata buffer is being read.
    Resolved,
    /// Metadata parsed; the provider constructor is being called.
    Described,
    /// The instance is alive; the registration entry point is being
    /// called.
    Constructed,
    /// Registration succeeded; the module is in service.
    Active,
    /// Registration failed; the instance stays loaded but the host
    /// must not route calls to it.
    Broken,
    /// A failure before construction; the module is being unloaded.
    Unloading,
    /// Shutdown: the destructor is being called.
    Destroying,
    /// The instance is destroyed; the module is being unloaded.
    Detaching,
    /// Shut down in good order.
    Closed,
    /// Loading failed; the module is not usable.
    Failed,
}

/// What the host reports back to the machine.
pub enum LoadEvent {
    /// Begin loading.
    Begin,
    /// The module file opened.
    OpenOk,
    /// The module file could not be opened; carries the reason.
    OpenFailed(String),
    /// All four entry points were found.
    SymbolsOk,
    /// A required entry point is missing; carries its name.
    SymbolMissing(String),
    /// The metadata buffer, as text.
    Metadata(String),
    /// The constructor returned a usable instance.
    ConstructedOk,
    /// The constructor returned null.
    ConstructedNull,
    /// The registration entry point returned success.
    InitOk,
    /// The registration entry point returned failure.
    InitFailed,
    /// The host asks for shutdown.
    Shutdown,
    /// The destructor returned.
    Destroyed,
    /// The module handle was dropped.
    Unloaded,
}

/// What the machine asks the host to do next.
#[derive(Clone, Copy, PartialEq, Eq, Structural, Debug)]
pub enum LoadAction {
    /// Open the module file at the loader's path.
    OpenLibrary,
    /// Resolve the constructor, metadata accessor, registration entry
    /// point and destructor.
    LookupSymbols,
    /// Call the metadata accessor and hand the text back.
    ReadMetadata,
    /// Call the provider constructor.
    CallConstructor,
    /// Call the registration entry point with the instance and a
    /// registrar.
    CallInitialize,
    /// Call the destructor for the instance, exactly once.
    CallDestroy,
    /// Drop the module handle.
    UnloadLibrary,
    /// Nothing: the dialogue is over or the event was out of turn.
    Idle,
}

/// Name, version and declared features of a provider module, as its
/// metadata buffer describes it.
pub struct ProviderMetadata {
    pub name: String,
    pub version: String,
    pub supports_features: Vec<String>,
}

/// All elements are JSON strings.
pub open spec fn all_strings(items: Seq<JsonVal>) -> bool {
    forall|i: int| 0 <= i < items.len() ==> items[i] is Str
}

/// The contents of a sequence of JSON strings.
pub open spec fn string_items(items: Seq<JsonVal>) -> Seq<Seq<char>> {
    Seq::new(items.len(), |i: int| items[i]->Str_0)
}

/// What a metadata document must carry: a string `name`, a string
/// `version`, and an array of strings `supports_features`.
pub open spec fn spec_metadata(v: JsonVal) -> Option<(Seq<char>, Seq<char>, Seq<Seq<char>>)> {
    match (spec_get(v, "name"@), spec_get(v, "version"@), spec_get(v, "supports_features"@)) {
        (Some(JsonVal::Str(n)), Some(JsonVal::Str(ver)), Some(JsonVal::Arr(items))) => if all_strings(
            items,
        ) {
            Some((n, ver, string_items(items)))
        } else {
            None
        },
        _ => None,
    }
}

pub open spec fn invalid_metadata_text() -> Seq<char> {
    "plugin metadata must carry string 'name', string 'version' and an array of strings 'supports_features'"@
}

pub open spec fn metadata_not_json_text() -> Seq<char> {
    "plugin metadata is not valid JSON"@
}

pub open spec fn missing_symbol_text(name: Seq<char>) -> Seq<char> {
    "required symbol '"@ + name + "' not found"@
}

pub open spec fn null_constructor_text() -> Seq<char> {
    "plugin constructor returned null"@
}

pub open spec fn init_failed_text() -> Seq<char> {
    "plugin registration entry point reported failure"@
}

/// Extracts a provider description from a parsed metadata value.
pub fn parse_metadata(v: &JsonValue) -> (r: Result<ProviderMetadata, PluginError>)
    ensures
        match r {
            Ok(m) => spec_metadata(v@) == Some(
                (m.name@, m.version@, m.supports_features.deep_view()),
            ),
            Err(e) => spec_metadata(v@) is None && (e
                matches PluginError::InitializationFailed(s) && s@ == invalid_metadata_text()),
        },
{
    let name = match v.get("name") {
        Some(f) => match f.as_str() {
            Some(s) => s.clone(),
            None => { return Err(invalid_metadata_error()) },
        },
        None => { return Err(invalid_metadata_error()) },
    };
    let version = match v.get("version") {
        Some(f) => match f.as_str() {
            Some(s) => s.clone(),
            None => { return Err(invalid_metadata_error()) },
        },
        None => { return Err(invalid_metadata_error()) },
    };
    let items = match v.get("supports_features") {
        Some(f) => match f.as_arr() {
            Some(items) => items,
            None => { return Err(invalid_metadata_error()) },
        },
        None => { return Err(invalid_metadata_error()) },
    };
    let ghost gitems = spec_get(v@, "supports_features"@)->Some_0->Arr_0;
    proof {
        assert(gitems == arr_view(items@));
        arr_view_len(items@);
    }
    let ghost gname = spec_get(v@, "name"@)->Some_0->Str_0;
    let ghost gversion = spec_get(v@, "version"@)->Some_0->Str_0;
    let mut features: Vec<String> = Vec::new();
    let n = items.len();
    let mut i: usize = 0;
    while i < n
        invariant
            i <= n,
            n == items@.len(),
            spec_get(v@, "name"@) == Some(JsonVal::Str(gname)),
            spec_get(v@, "version"@) == Some(JsonVal::Str(gversion)),
            spec_get(v@, "supports_features"@) == Some(JsonVal::Arr(gitems)),
            name@ == gname,
            version@ == gversion,
            gitems == arr_view(items@),
            gitems.len() == items@.len(),
            features.deep_view().len() == i,
            forall|j: int| 0 <= j < i ==> gitems[j] is Str,
            forall|j: int|
                0 <= j < i ==> #[trigger] features.deep_view()[j] == gitems[j]->Str_0,
        decreases n - i,
    {
        proof {
            arr_view_index(items@, i as int);
        }
        let ghost pre = features.deep_view();
        let ghost prevec = features@;
        match items[i].as_str() {
            Some(s) => {
                features.push(s.clone());
                proof {
                    assert(features@ == prevec.push(*s));
                    assert(features.deep_view()[i as int] == gitems[i as int]->Str_0);
                    assert forall|j: int| 0 <= j < i implies #[trigger] features.deep_view()[j]
                        == gitems[j]->Str_0 by {
                        assert(features@[j] == prevec[j]);
                        assert(features.deep_view()[j] == pre[j]);
                    }
                }
            },
            None => {
                proof {
                    assert(gitems[i as int] == items@[i as int]@);
                    assert(!(gitems[i as int] is Str));
                    assert(!all_strings(gitems));
                    assert(spec_metadata(v@) is None);
                }
                return Err(invalid_metadata_error());
            },
        }
        i += 1;
    }
    proof {
        assert(all_strings(gitems));
        assert(features.deep_view() =~= string_items(gitems));
    }
    Ok(ProviderMetadata { name, version, supports_features: features })
}

/// The error for a metadata document of the wrong shape.
fn invalid_metadata_error() -> (r: PluginError)
    ensures
        r matches PluginError::InitializationFailed(s) && s@ == invalid_metadata_text(),
{
    PluginError::InitializationFailed(
        String::from_str(
            "plugin metadata must carry string 'name', string 'version' and an array of strings 'supports_features'",
        ),
    )
}

/// Parses a metadata buffer and extracts the provider description.
pub fn decode_metadata(text: &str) -> (r: Result<ProviderMetadata, PluginError>)
    ensures
        match json_of(text@) {
            None => r matches Err(e) && (e matches PluginError::InitializationFailed(s) && s@
                == metadata_not_json_text()),
            Some(v) => match r {
                Ok(m) => spec_metadata(v) == Some(
                    (m.name@, m.version@, m.supports_features.deep_view()),
                ),
                Err(e) => spec_metadata(v) is None && (e
                    matches PluginError::InitializationFailed(s) && s@
                    == invalid_metadata_text()),
            },
        },
{
    match parse_json(text) {
        None => Err(
            PluginError::InitializationFailed(String::from_str("plugin metadata is not valid JSON")),
        ),
        Some(v) => parse_metadata(&v),
    }
}

/// The metadata buffer parses and has the required shape.
pub open spec fn metadata_good(text: Seq<char>) -> bool {
    match json_of(text) {
        Some(v) => spec_metadata(v) is Some,
        None => false,
    }
}

/// The next phase after an event.
pub open spec fn spec_step_phase(p: LoadPhase, e: LoadEvent) -> LoadPhase {
    match (p, e) {
        (LoadPhase::Start, LoadEvent::Begin) => LoadPhase::Opening,
        (LoadPhase::Opening, LoadEvent::OpenOk) => LoadPhase::Opened,
        (LoadPhase::Opening, LoadEvent::OpenFailed(_)) => LoadPhase::Failed,
        (LoadPhase::Opened, LoadEvent::SymbolsOk) => LoadPhase::Resolved,
        (LoadPhase::Opened, LoadEvent::SymbolMissing(_)) => LoadPhase::Unloading,
        (LoadPhase::Resolved, LoadEvent::Metadata(text)) => if metadata_good(text@) {
            LoadPhase::Described
        } else {
            LoadPhase::Unloading
        },
        (LoadPhase::Described, LoadEvent::ConstructedOk) => LoadPhase::Constructed,
        (LoadPhase::Described, LoadEvent::ConstructedNull) => LoadPhase::Unloading,
        (LoadPhase::Constructed, LoadEvent::InitOk) => LoadPhase::Active,
        (LoadPhase::Constructed, LoadEvent::InitFailed) => LoadPhase::Broken,
        (LoadPhase::Active, LoadEvent::Shutdown) => LoadPhase::Destroying,
        (LoadPhase::Broken, LoadEvent::Shutdown) => LoadPhase::Destroying,
        (LoadPhase::Destroying, LoadEvent::Destroyed) => LoadPhase::Detaching,
        (LoadPhase::Detaching, LoadEvent::Unloaded) => LoadPhase::Closed,
        (LoadPhase::Unloading, LoadEvent::Unloaded) => LoadPhase::Failed,
        (q, _) => q,
    }
}

/// The action requested after an event.
pub open spec fn spec_step_action(p: LoadPhase, e: LoadEvent) -> LoadAction {
    match (p, e) {
        (LoadPhase::Start, LoadEvent::Begin) => LoadAction::OpenLibrary,
        (LoadPhase::Opening, LoadEvent::OpenOk) => LoadAction::LookupSymbols,
        (LoadPhase::Opening, LoadEvent::OpenFailed(_)) => LoadAction::Idle,
        (LoadPhase::Opened, LoadEvent::SymbolsOk) => LoadAction::ReadMetadata,
        (LoadPhase::Opened, LoadEvent::SymbolMissing(_)) => LoadAction::UnloadLibrary,
        (LoadPhase::Resolved, LoadEvent::Metadata(text)) => if metadata_good(text@) {
            LoadAction::CallConstructor
        } else {
            LoadAction::UnloadLibrary
        },
        (LoadPhase::Described, LoadEvent::ConstructedOk) => LoadAction::CallInitialize,
        (LoadPhase::Described, LoadEvent::ConstructedNull) => LoadAction::UnloadLibrary,
        (LoadPhase::Constructed, LoadEvent::InitOk) => LoadAction::Idle,
        (LoadPhase::Constructed, LoadEvent::InitFailed) => LoadAction::Idle,
        (LoadPhase::Active, LoadEvent::Shutdown) => LoadAction::CallDestroy,
        (LoadPhase::Broken, LoadEvent::Shutdown) => LoadAction::CallDestroy,
        (LoadPhase::Destroying, LoadEvent::Destroyed) => LoadAction::UnloadLibrary,
        (_, _) => LoadAction::Idle,
    }
}

/// The cases in which a step records a failure.
pub open spec fn step_records_failure(p: LoadPhase, e: LoadEvent) -> bool {
    match (p, e) {
        (LoadPhase::Opening, LoadEvent::OpenFailed(_)) => true,
        (LoadPhase::Opened, LoadEvent::SymbolMissing(_)) => true,
        (LoadPhase::Resolved, LoadEvent::Metadata(text)) => !metadata_good(text@),
        (LoadPhase::Described, LoadEvent::ConstructedNull) => true,
        (LoadPhase::Constructed, LoadEvent::InitFailed) => true,
        _ => false,
    }
}

/// Drives one module through load, service and shutdown. The machine
/// only decides; the host performs each requested action and reports
/// the outcome as the next event.
pub struct ModuleLoader {
    path: String,
    phase: LoadPhase,
    metadata: Option<ProviderMetadata>,
    failure: Option<PluginError>,
}

impl ModuleLoader {
    /// The path of the module file.
    pub closed spec fn path_view(self) -> Seq<char> {
        self.path@
    }

    /// The current phase.
    pub closed spec fn spec_phase(self) -> LoadPhase {
        self.phase
    }

    /// The provider description, once the metadata is read.
    pub closed spec fn metadata_view(self) -> Option<(Seq<char>, Seq<char>, Seq<Seq<char>>)> {
        match self.metadata {
            Some(m) => Some((m.name@, m.version@, m.supports_features.deep_view())),
            None => None,
        }
    }

    /// The recorded failure, if any.
    pub closed spec fn spec_failure(self) -> Option<PluginError> {
        self.failure
    }

    /// A loader for the module at `path`, before any step.
    pub fn new(path: &str) -> (r: ModuleLoader)
        ensures
            r.path_view() == path@,
            r.spec_phase() == LoadPhase::Start,
            r.metadata_view() is None,
            r.spec_failure() is None,
    {
        ModuleLoader { path: path.to_owned(), phase: LoadPhase::Start, metadata: None, failure: None }
    }

    /// The current phase.
    pub fn phase(&self) -> (r: LoadPhase)
        ensures
            r == self.spec_phase(),
    {
        self.phase
    }

    /// The path of the module file.
    pub fn path(&self) -> (r: &str)
        ensures
            r@ == self.path_view(),
    {
        self.path.as_str()
    }

    /// The provider description, once the metadata is read.
    pub fn metadata(&self) -> (r: Option<&ProviderMetadata>)
        ensures
            match r {
                Some(m) => self.metadata_view() == Some(
                    (m.name@, m.version@, m.supports_features.deep_view()),
                ),
                None => self.metadata_view() is None,
            },
    {
        self.metadata.as_ref()
    }

    /// The recorded failure, if any.
    pub fn failure(&self) -> (r: Option<&PluginError>)
        ensures
            match r {
                Some(e) => self.spec_failure() == Some(*e),
                None => self.spec_failure() is None,
            },
    {
        self.failure.as_ref()
    }

    /// Feeds one outcome in and decides what to do next.
    ///
    /// Failures are non-fatal to the host: a missing file or symbol, a
    /// bad metadata buffer or a null instance abort the load before
    /// any registration is attempted; a failed registration leaves the
    /// module loaded but non-functional. The destructor is requested
    /// only from a phase with a live instance, and unloading only
    /// without one.
    pub fn step(&mut self, event: LoadEvent) -> (r: LoadAction)
        ensures
            final(self).spec_phase() == spec_step_phase(old(self).spec_phase(), event),
            r == spec_step_action(old(self).spec_phase(), event),
            final(self).path_view() == old(self).path_view(),
            !step_records_failure(old(self).spec_phase(), event) ==> final(self).spec_failure()
                == old(self).spec_failure(),
            ({
                let p0 = old(self).spec_phase();
                match event {
                    LoadEvent::OpenFailed(m) => p0 == LoadPhase::Opening ==> (final(self).spec_failure() matches Some(e) && (e matches PluginError::PluginNotFound(s)
                        && s@ == m@)),
                    LoadEvent::SymbolMissing(n) => p0 == LoadPhase::Opened ==> (final(self).spec_failure() matches Some(e) && (e matches PluginError::PluginNotFound(s)
                        && s@ == missing_symbol_text(n@))),
                    LoadEvent::Metadata(t) => p0 == LoadPhase::Resolved ==> (match json_of(t@) {
                        None => (final(self).spec_failure() matches Some(e) && (e
                            matches PluginError::InitializationFailed(s) && s@
                            == metadata_not_json_text())),
                        Some(v) => match spec_metadata(v) {
                            None => (final(self).spec_failure() matches Some(e) && (e
                                matches PluginError::InitializationFailed(s) && s@
                                == invalid_metadata_text())),
                            Some(md) => final(self).metadata_view() == Some(md),
                        },
                    }),
                    LoadEvent::ConstructedNull => p0 == LoadPhase::Described ==> (final(self).spec_failure() matches Some(e) && (e matches PluginError::PluginNotFound(s)
                        && s@ == null_constructor_text())),
                    LoadEvent::InitFailed => p0 == LoadPhase::Constructed ==> (final(self).spec_failure() matches Some(e) && (e
                        matches PluginError::InitializationFailed(s) && s@ == init_failed_text())),
                    _ => true,
                }
            }),
            ({
                let p0 = old(self).spec_phase();
                match event {
                    LoadEvent::Metadata(t) => !(p0 == LoadPhase::Resolved && metadata_good(t@))
                        ==> final(self).metadata_view() == old(self).metadata_view(),
                    _ => final(self).metadata_view() == old(self).metadata_view(),
                }
            }),
    {
        match (self.phase, event) {
            (LoadPhase::Start, LoadEvent::Begin) => {
                self.phase = LoadPhase::Opening;
                LoadAction::OpenLibrary
            },
            (LoadPhase::Opening, LoadEvent::OpenOk) => {
                self.phase = LoadPhase::Opened;
                LoadAction::LookupSymbols
            },
            (LoadPhase::Opening, LoadEvent::OpenFailed(m)) => {
                self.failure = Some(PluginError::PluginNotFound(m));
                self.phase = LoadPhase::Failed;
                LoadAction::Idle
            },
            (LoadPhase::Opened, LoadEvent::SymbolsOk) => {
                self.phase = LoadPhase::Resolved;
                LoadAction::ReadMetadata
            },
            (LoadPhase::Opened, LoadEvent::SymbolMissing(n)) => {
                let mut msg = String::from_str("required symbol '");
                msg.append(n.as_str());
                msg.append("' not found");
                proof {
                    assert(msg@ =~= missing_symbol_text(n@));
                }
                self.failure = Some(PluginError::PluginNotFound(msg));
                self.phase = LoadPhase::Unloading;
                LoadAction::UnloadLibrary
            },
            (LoadPhase::Resolved, LoadEvent::Metadata(text)) => {
                match decode_metadata(text.as_str()) {
                    Ok(m) => {
                        self.metadata = Some(m);
                        self.phase = LoadPhase::Described;
                        LoadAction::CallConstructor
                    },
                    Err(e) => {
                        self.failure = Some(e);
                        self.phase = LoadPhase::Unloading;
                        LoadAction::UnloadLibrary
                    },
                }
            },
            (LoadPhase::Described, LoadEvent::ConstructedOk) => {
                self.phase = LoadPhase::Constructed;
                LoadAction::CallInitialize
            },
            (LoadPhase::Described, LoadEvent::ConstructedNull) => {
                self.failure = Some(
                    PluginError::PluginNotFound(String::from_str("plugin constructor returned null")),
                );
                self.phase = LoadPhase::Unloading;
                LoadAction::UnloadLibrary
            },
            (LoadPhase::Constructed, LoadEvent::InitOk) => {
                self.phase = LoadPhase::Active;
                LoadAction::Idle
            },
            (LoadPhase::Constructed, LoadEvent::InitFailed) => {
                self.failure = Some(
                    PluginError::InitializationFailed(
                        String::from_str("plugin registration entry point reported failure"),
                    ),
                );
                self.phase = LoadPhase::Broken;
                LoadAction::Idle
            },
            (LoadPhase::Active, LoadEvent::Shutdown) => {
                self.phase = LoadPhase::Destroying;
                LoadAction::CallDestroy
            },
            (LoadPhase::Broken, LoadEvent::Shutdown) => {
                self.phase = LoadPhase::Destroying;
                LoadAction::CallDestroy
            },
            (LoadPhase::Destroying, LoadEvent::Destroyed) => {
                self.phase = LoadPhase::Detaching;
                LoadAction::UnloadLibrary
            },
            (LoadPhase::Detaching, LoadEvent::Unloaded) => {
                self.phase = LoadPhase::Closed;
                LoadAction::Idle
            },
            (LoadPhase::Unloading, LoadEvent::Unloaded) => {
                self.phase = LoadPhase::Failed;
                LoadAction::Idle
            },
            (_, _) => LoadAction::Idle,
        }
    }
}

/// A phase in which the provider instance is alive.
pub open spec fn instance_alive(p: LoadPhase) -> bool {
    p == LoadPhase::Constructed || p == LoadPhase::Active || p == LoadPhase::Broken
}

/// A phase at or after the destruction request.
pub open spec fn destruction_begun(p: LoadPhase) -> bool {
    p == LoadPhase::Destroying || p == LoadPhase::Detaching || p == LoadPhase::Closed
}

/// Destruction is requested only while the instance is alive, and the
/// step that requests it leaves the alive phases: the destructor
/// cannot be asked for an instance that does not exist.
pub proof fn lemma_destroy_only_from_live(p: LoadPhase, e: LoadEvent)
    ensures
        spec_step_action(p, e) == LoadAction::CallDestroy ==> instance_alive(p) && !instance_alive(
            spec_step_phase(p, e),
        ),
{
}

/// The module is never asked to unload while the provider instance is
/// alive: unloading comes only before construction or after
/// destruction, so no handler obtained from the module can outlive it
/// through this machine.
pub proof fn lemma_unload_only_without_live_instance(p: LoadPhase, e: LoadEvent)
    ensures
        spec_step_action(p, e) == LoadAction::UnloadLibrary ==> !instance_alive(p),
{
}

/// The phase reached after a run of events.
pub open spec fn run_phase(p: LoadPhase, events: Seq<LoadEvent>) -> LoadPhase
    decreases events.len(),
{
    if events.len() == 0 {
        p
    } else {
        run_phase(spec_step_phase(p, events[0]), events.skip(1))
    }
}

/// Whether a run ever requests initialization.
pub open spec fn run_requests_initialize(p: LoadPhase, events: Seq<LoadEvent>) -> bool
    decreases events.len(),
{
    if events.len() == 0 {
        false
    } else {
        spec_step_action(p, events[0]) == LoadAction::CallInitialize || run_requests_initialize(
            spec_step_phase(p, events[0]),
            events.skip(1),
        )
    }
}

/// How many times a run requests destruction.
pub open spec fn run_destroy_count(p: LoadPhase, events: Seq<LoadEvent>) -> int
    decreases events.len(),
{
    if events.len() == 0 {
        0int
    } else {
        (if spec_step_action(p, events[0]) == LoadAction::CallDestroy {
            1int
        } else {
            0int
        }) + run_destroy_count(spec_step_phase(p, events[0]), events.skip(1))
    }
}

/// A phase from before symbol resolution.
pub open spec fn before_symbols(p: LoadPhase) -> bool {
    p == LoadPhase::Start || p == LoadPhase::Opening || p == LoadPhase::Opened || p
        == LoadPhase::Unloading || p == LoadPhase::Failed
}

proof fn lemma_no_symbols_no_initialize(p: LoadPhase, events: Seq<LoadEvent>)
    requires
        before_symbols(p),
        forall|i: int| 0 <= i < events.len() ==> !(#[trigger] events[i] is SymbolsOk),
    ensures
        !run_requests_initialize(p, events),
    decreases events.len(),
{
    if events.len() > 0 {
        let p2 = spec_step_phase(p, events[0]);
        assert(!(events[0] is SymbolsOk));
        assert(before_symbols(p2));
        assert(spec_step_action(p, events[0]) != LoadAction::CallInitialize);
        assert(forall|i: int|
            0 <= i < events.skip(1).len() ==> !(#[trigger] events.skip(1)[i] is SymbolsOk));
        lemma_no_symbols_no_initialize(p2, events.skip(1));
    }
}

/// A module missing a required entry point is never initialized: if
/// symbol resolution never succeeds, no run of the machine from the
/// start requests `CallInitialize`, so the host never hands the
/// module a registrar and the registry is left exactly as it was.
pub proof fn lemma_missing_symbol_never_initializes(events: Seq<LoadEvent>)
    requires
        forall|i: int| 0 <= i < events.len() ==> !(#[trigger] events[i] is SymbolsOk),
    ensures
        !run_requests_initialize(LoadPhase::Start, events),
{
    lemma_no_symbols_no_initialize(LoadPhase::Start, events);
}

proof fn lemma_destroy_count_after(p: LoadPhase, events: Seq<LoadEvent>)
    requires
        destruction_begun(p),
    ensures
        run_destroy_count(p, events) == 0,
    decreases events.len(),
{
    if events.len() > 0 {
        let p2 = spec_step_phase(p, events[0]);
        assert(destruction_begun(p2));
        assert(spec_step_action(p, events[0]) != LoadAction::CallDestroy);
        lemma_destroy_count_after(p2, events.skip(1));
    }
}

proof fn lemma_destroy_count_before(p: LoadPhase, events: Seq<LoadEvent>)
    requires
        !destruction_begun(p),
    ensures
        run_destroy_count(p, events) <= 1,
    decreases events.len(),
{
    if events.len() > 0 {
        let p2 = spec_step_phase(p, events[0]);
        if spec_step_action(p, events[0]) == LoadAction::CallDestroy {
            assert(destruction_begun(p2));
            lemma_destroy_count_after(p2, events.skip(1));
        } else {
            assert(!destruction_begun(p2));
            lemma_destroy_count_before(p2, events.skip(1));
        }
    }
}

/// Construction and destruction are strictly paired: no run of the
/// machine from the start requests the destructor more than once.
pub proof fn lemma_destroy_at_most_once(events: Seq<LoadEvent>)
    ensures
        run_destroy_count(LoadPhase::Start, events) <= 1,
{
    lemma_destroy_count_before(LoadPhase::Start, events);
}

/// Guards a resource obtained across the module boundary: the value
/// is reachable only while the guard is alive, and retiring the guard
/// consumes it, so the resource can be released exactly once and
/// cannot be used afterwards.
pub struct HandleGuard<T> {
    value: T,
    alive: bool,
}

impl<T> HandleGuard<T> {
    /// The guard has not been retired.
    pub closed spec fn is_alive(self) -> bool {
        self.alive
    }

    /// The guarded value.
    pub closed spec fn spec_value(self) -> T {
        self.value
    }

    /// Guards a freshly obtained resource.
    pub fn new(value: T) -> (r: HandleGuard<T>)
        ensures
            r.is_alive(),
            r.spec_value() == value,
    {
        HandleGuard { value, alive: true }
    }

    /// Whether the guard still holds its resource.
    pub fn alive(&self) -> (r: bool)
        ensures
            r == self.is_alive(),
    {
        self.alive
    }

    /// The guarded value; only a live guard can be read.
    pub fn get(&self) -> (r: &T)
        requires
            self.is_alive(),
        ensures
            *r == self.spec_value(),
    {
        &self.value
    }

    /// Hands the resource out for release and consumes the guard:
    /// release can happen at most once, and no use can follow it.
    pub fn retire(self) -> (r: T)
        requires
            self.is_alive(),
        ensures
            r == self.spec_value(),
    {
        self.value
    }
}

} // verus!
