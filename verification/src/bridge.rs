//! The dispatch bridge: the cached backend, the envelope that addresses one
//! of its operations, and the conversion of payloads and results at the
//! boundary to the embedded runtime.
//!
//! The library decides and converts; its caller holds the lock, loads the
//! backend and calls into it. `dispatch_to_python` runs one dispatch from end
//! to end, with the load and the call handed to it as functions; its steps
//! are public for a caller that runs them itself.

use vstd::prelude::*;
use vstd::string::*;
use crate::json::{json_error_text, json_text, parse_value, parsed_text, to_json_text};

verus! {

/// Why the backend could not be set up.
#[derive(Debug)]
pub enum InitError {
    /// The backend module was not found on the search path or failed to load;
    /// the text is the runtime's description.
    ModuleNotFound(String),
}

/// Why a dispatch failed.
#[derive(Debug)]
pub enum BridgeError {
    /// The backend could not be set up.
    Init(String),
    /// A value could not be converted at the boundary: the runtime could not
    /// take the payload in or write the result out, or what it wrote is no
    /// JSON document.
    Serialization(String),
    /// The backend raised a fault while handling the command.
    Execution(String),
}

impl BridgeError {
    /// The flat description of the error.
    pub open spec fn describe_spec(self) -> Seq<char> {
        match self {
            BridgeError::Init(detail) => "Init Failed: "@ + detail@,
            BridgeError::Serialization(detail) => "Serialization Error: "@ + detail@,
            BridgeError::Execution(detail) => "Python Execution Error: "@ + detail@,
        }
    }

    /// The flat description under which the error leaves the bridge.
    pub fn describe(&self) -> (text: String)
        ensures
            text@ == self.describe_spec(),
    {
        match self {
            BridgeError::Init(detail) => "Init Failed: ".to_owned().concat(detail.as_str()),
            BridgeError::Serialization(detail) => "Serialization Error: ".to_owned().concat(
                detail.as_str(),
            ),
            BridgeError::Execution(detail) => "Python Execution Error: ".to_owned().concat(
                detail.as_str(),
            ),
        }
    }
}

impl InitError {
    /// The runtime's description of the failure.
    pub open spec fn detail(self) -> Seq<char> {
        match self {
            InitError::ModuleNotFound(detail) => detail@,
        }
    }

    /// The error as a dispatch reports it.
    pub fn into_bridge_error(self) -> (e: BridgeError)
        ensures
            e matches BridgeError::Init(detail) && detail@ == self.detail(),
    {
        match self {
            InitError::ModuleNotFound(detail) => BridgeError::Init(detail),
        }
    }
}

/// The directory on which the backend module is looked for: the development
/// directory where there is a candidate for it and the candidate exists, the
/// fallback otherwise.
pub fn resolve_search_path(dev_dir: Option<String>, dev_dir_exists: bool, fallback: String) -> (path:
    String)
    ensures
        path == (match dev_dir {
            Some(dir) if dev_dir_exists => dir,
            _ => fallback,
        }),
{
    match dev_dir {
        Some(dir) => if dev_dir_exists {
            dir
        } else {
            fallback
        },
        None => fallback,
    }
}

/// What initialization has to do.
#[derive(Clone, Copy, PartialEq, Eq, Structural, Debug)]
pub enum InitPlan {
    /// The backend is cached: nothing is loaded.
    Reuse,
    /// No backend yet: resolve the search path and load the module.
    Load,
}

/// The cached backend: a handle to the backend object and the search path it
/// was loaded from, both absent until the first load succeeds and never
/// replaced after it.
pub struct Bridge<H> {
    handle: Option<H>,
    search_path: Option<String>,
}

/// What a bridge holds, as plain values.
pub struct BridgeView<H> {
    pub handle: Option<H>,
    pub search_path: Option<Seq<char>>,
}

/// What initialization has to do in a state.
pub open spec fn plan_spec<H>(state: BridgeView<H>) -> InitPlan {
    if state.handle is Some {
        InitPlan::Reuse
    } else {
        InitPlan::Load
    }
}

/// The state after the outcome of a load from `search_path` is recorded: a
/// state with a backend stays as it is; one without caches a loaded handle
/// with its path, and stays as it is on a failure.
pub open spec fn init_step<H>(
    state: BridgeView<H>,
    search_path: Seq<char>,
    loaded: Result<H, String>,
) -> BridgeView<H> {
    if state.handle is Some {
        state
    } else {
        match loaded {
            Ok(h) => BridgeView { handle: Some(h), search_path: Some(search_path) },
            Err(_) => state,
        }
    }
}

/// What recording the outcome of a load reports: success wherever a backend
/// is cached afterwards, the runtime's description otherwise.
pub open spec fn init_result<H>(state: BridgeView<H>, loaded: Result<H, String>) -> Result<
    (),
    InitError,
> {
    if state.handle is Some {
        Ok(())
    } else {
        match loaded {
            Ok(_) => Ok(()),
            Err(detail) => Err(InitError::ModuleNotFound(detail)),
        }
    }
}

impl<H> View for Bridge<H> {
    type V = BridgeView<H>;

    closed spec fn view(&self) -> BridgeView<H> {
        BridgeView {
            handle: self.handle,
            search_path: match self.search_path {
                Some(path) => Some(path@),
                None => None,
            },
        }
    }
}

impl<H> Bridge<H> {
    /// A bridge with no backend.
    pub fn new() -> (bridge: Self)
        ensures
            bridge@ == (BridgeView::<H> { handle: None, search_path: None }),
    {
        Bridge { handle: None, search_path: None }
    }

    /// Whether a backend is cached.
    pub fn is_initialized(&self) -> (b: bool)
        ensures
            b == (self@.handle is Some),
    {
        self.handle.is_some()
    }

    /// The cached handle.
    pub fn handle(&self) -> (h: Option<&H>)
        ensures
            h is Some <==> self@.handle is Some,
            h matches Some(r) ==> self@.handle == Some(*r),
    {
        self.handle.as_ref()
    }

    /// The search path that the cached backend was loaded from.
    pub fn search_path(&self) -> (path: Option<&String>)
        ensures
            path is Some <==> self@.search_path is Some,
            path matches Some(p) ==> self@.search_path == Some(p@),
    {
        self.search_path.as_ref()
    }

    /// Says whether the backend has to be loaded.
    pub fn init_plan(&self) -> (plan: InitPlan)
        ensures
            plan == plan_spec(self@),
    {
        if self.handle.is_some() {
            InitPlan::Reuse
        } else {
            InitPlan::Load
        }
    }

    /// Records the outcome of a load from `search_path`. A bridge that has a
    /// backend keeps it, whatever the outcome, and reports success. One that
    /// has none caches a loaded handle with its path, and on a failure stays
    /// without and reports the failure.
    pub fn finish_init(&mut self, search_path: String, loaded: Result<H, String>) -> (r: Result<
        (),
        InitError,
    >)
        ensures
            final(self)@ == init_step(old(self)@, search_path@, loaded),
            r == init_result(old(self)@, loaded),
    {
        if self.handle.is_some() {
            return Ok(());
        }
        match loaded {
            Ok(h) => {
                self.handle = Some(h);
                self.search_path = Some(search_path);
                Ok(())
            },
            Err(detail) => Err(InitError::ModuleNotFound(detail)),
        }
    }
}

/// Idempotence: once recording a load has left a backend cached, the plan is
/// to reuse it, and recording any further outcome reports success and changes
/// nothing: the handle cached first and its path stay.
pub proof fn lemma_init_is_idempotent<H>(
    state: BridgeView<H>,
    first_path: Seq<char>,
    first: Result<H, String>,
    second_path: Seq<char>,
    second: Result<H, String>,
)
    requires
        init_result(state, first) is Ok,
    ensures
        plan_spec(init_step(state, first_path, first)) == InitPlan::Reuse,
        init_step(init_step(state, first_path, first), second_path, second) == init_step(
            state,
            first_path,
            first,
        ),
        init_result(init_step(state, first_path, first), second) is Ok,
{
}

/// A failed load leaves the bridge as it was: the next plan is to load again.
pub proof fn lemma_failed_init_changes_nothing<H>(
    state: BridgeView<H>,
    search_path: Seq<char>,
    loaded: Result<H, String>,
)
    requires
        init_result(state, loaded) is Err,
    ensures
        init_step(state, search_path, loaded) == state,
        plan_spec(state) == InitPlan::Load,
{
}

/// What addresses one operation of the backend: the command, and the payload
/// as JSON text.
#[derive(Debug)]
pub struct Envelope {
    pub command: String,
    pub payload: String,
}

/// What an envelope holds, as plain values.
pub struct EnvelopeView {
    pub command: Seq<char>,
    pub payload: Seq<char>,
}

impl View for Envelope {
    type V = EnvelopeView;

    open spec fn view(&self) -> EnvelopeView {
        EnvelopeView { command: self.command@, payload: self.payload@ }
    }
}

/// Converts a JSON value to the form in which it crosses the boundary: its
/// JSON text. Every JSON value can be written, so the conversion succeeds.
pub fn to_native(value: &serde_json::Value) -> (r: Result<String, BridgeError>)
    ensures
        r matches Ok(text) && text@ == json_text(*value),
{
    match to_json_text(value) {
        Ok(text) => Ok(text),
        Err(e) => Err(BridgeError::Serialization(json_error_text(&e))),
    }
}

/// Converts what came over the boundary, JSON text, back to a JSON value. The
/// call succeeds exactly on the texts that are JSON documents, and gives the
/// value that the text parses to; any other text is a serialization error.
pub fn from_native(text: &str) -> (r: Result<serde_json::Value, BridgeError>)
    ensures
        r is Ok <==> parsed_text(text@) is Some,
        r matches Ok(value) ==> parsed_text(text@) == Some(json_text(value)),
        r matches Err(e) ==> e is Serialization,
{
    match parse_value(text) {
        Ok(value) => Ok(value),
        Err(e) => Err(BridgeError::Serialization(json_error_text(&e))),
    }
}

/// Builds the envelope of a command: the command as given, the payload as its
/// JSON text. Every payload has an envelope.
pub fn build_envelope(command: &str, payload: &serde_json::Value) -> (r: Result<
    Envelope,
    BridgeError,
>)
    ensures
        r matches Ok(envelope) && envelope@ == (EnvelopeView {
            command: command@,
            payload: json_text(*payload),
        }),
{
    match to_native(payload) {
        Ok(text) => Ok(Envelope { command: command.to_owned(), payload: text }),
        Err(e) => Err(e),
    }
}

/// Why a call into the backend gave no result.
#[derive(Debug)]
pub enum CallFailure {
    /// The runtime could not take the payload in, or could not write the
    /// backend's result out as JSON; the text is its description. The
    /// command was not handled, or its result is lost.
    Conversion(String),
    /// The backend raised a fault while handling the command; the text is the
    /// fault's description.
    Fault(String),
}

/// Whether `result` is what a dispatch gives for what the call into the
/// backend gave. A fault comes back as an execution error with the fault's
/// text, word for word. A value that the runtime could not convert comes back
/// as a serialization error with the runtime's text. A result text comes back
/// as the value it parses to, or as a serialization error where it is no JSON
/// document.
pub open spec fn answers(
    outcome: Result<String, CallFailure>,
    result: Result<serde_json::Value, BridgeError>,
) -> bool {
    match outcome {
        Err(CallFailure::Fault(fault)) => result matches Err(BridgeError::Execution(detail))
            && detail@ == fault@,
        Err(CallFailure::Conversion(reason)) => result matches Err(
            BridgeError::Serialization(detail),
        ) && detail@ == reason@,
        Ok(text) => {
            &&& result is Ok <==> parsed_text(text@) is Some
            &&& result matches Ok(value) ==> parsed_text(text@) == Some(json_text(value))
            &&& result matches Err(e) ==> e is Serialization
        },
    }
}

/// Turns what the call into the backend gave, the result of `handle` as JSON
/// text or the failure, into the result of the dispatch, as `answers` says.
pub fn finish_dispatch(outcome: Result<String, CallFailure>) -> (r: Result<
    serde_json::Value,
    BridgeError,
>)
    ensures
        answers(outcome, r),
{
    match outcome {
        Ok(text) => from_native(text.as_str()),
        Err(CallFailure::Fault(fault)) => Err(BridgeError::Execution(fault)),
        Err(CallFailure::Conversion(reason)) => Err(BridgeError::Serialization(reason)),
    }
}

/// Makes sure that the bridge has a backend. Where it has one, nothing is
/// loaded and nothing changes: `load` need not even be callable then, so it
/// is not called. Where it has none, `load` is called once: it resolves the
/// search path, loads the backend from it and returns the path with the
/// handle or the description of the failure; the outcome is recorded as
/// `init_step` says.
pub fn init_python_backend<H, L>(bridge: &mut Bridge<H>, load: L) -> (r: Result<(), InitError>) where
    L: FnOnce() -> (String, Result<H, String>),

    requires
        old(bridge)@.handle is None ==> call_requires(load, ()),
    ensures
        old(bridge)@.handle is Some ==> r is Ok && final(bridge)@ == old(bridge)@,
        old(bridge)@.handle is None ==> exists|path: String, loaded: Result<H, String>|
            call_ensures(load, (), (path, loaded)) && final(bridge)@ == init_step(
                old(bridge)@,
                path@,
                loaded,
            ) && r == init_result(old(bridge)@, loaded),
        r is Ok <==> final(bridge)@.handle is Some,
{
    match bridge.init_plan() {
        InitPlan::Reuse => Ok(()),
        InitPlan::Load => {
            let (path, loaded) = load();
            bridge.finish_init(path, loaded)
        },
    }
}

/// Dispatches a command to the backend. The backend is set up first, by
/// `load`, if the bridge has none; a failure of that ends the dispatch with
/// an init error, and the backend is not called. With a backend, the envelope
/// is built, `call` hands it to the backend's `handle` and returns its result
/// as JSON text, or why there is none, and the dispatch answers with it as
/// `answers` says. The bridge is borrowed for the whole dispatch,
/// so no second dispatch runs through it meanwhile.
pub fn dispatch_to_python<H, L, C>(
    bridge: &mut Bridge<H>,
    command: &str,
    payload: &serde_json::Value,
    load: L,
    call: C,
) -> (r: Result<serde_json::Value, BridgeError>) where
    L: FnOnce() -> (String, Result<H, String>),
    C: FnOnce(&H, Envelope) -> Result<String, CallFailure>,

    requires
        old(bridge)@.handle is None ==> call_requires(load, ()),
        forall|handle: &H, envelope: Envelope| call_requires(call, (handle, envelope)),
    ensures
        old(bridge)@.handle is Some ==> final(bridge)@ == old(bridge)@,
        old(bridge)@.handle is None ==> exists|path: String, loaded: Result<H, String>|
            call_ensures(load, (), (path, loaded)) && final(bridge)@ == init_step(
                old(bridge)@,
                path@,
                loaded,
            ) && (loaded matches Err(detail) ==> r matches Err(BridgeError::Init(text)) && text@
                == detail@),
        (r matches Err(e) && e is Init) <==> final(bridge)@.handle is None,
        final(bridge)@.handle matches Some(handle) ==> exists|
            envelope: Envelope,
            outcome: Result<String, CallFailure>,
        |
            envelope@ == (EnvelopeView { command: command@, payload: json_text(*payload) })
                && call_ensures(call, (&handle, envelope), outcome) && answers(outcome, r),
{
    match init_python_backend(bridge, load) {
        Ok(_) => {},
        Err(e) => {
            return Err(e.into_bridge_error());
        },
    }
    let envelope = match build_envelope(command, payload) {
        Ok(envelope) => envelope,
        Err(e) => {
            return Err(e);
        },
    };
    let ghost sent = envelope;
    let handle = bridge.handle().unwrap();
    let outcome = call(handle, envelope);
    let r = finish_dispatch(outcome);
    proof {
        let cached = bridge@.handle->0;
        assert(*handle == cached);
        assert(call_ensures(call, (&cached, sent), outcome));
        assert(answers(outcome, r));
    }
    r
}

/// What leaves the bridge for a reply: the value as it is, or the flat
/// description of the error.
pub open spec fn flattened(
    reply: Result<serde_json::Value, BridgeError>,
    result: Result<serde_json::Value, String>,
) -> bool {
    match reply {
        Ok(value) => result == Ok::<serde_json::Value, String>(value),
        Err(e) => result matches Err(text) && text@ == e.describe_spec(),
    }
}

/// The command that passes a request through to the backend: `dispatch` is
/// called once with the command and the payload as given, and its reply
/// leaves with any error flattened to its description.
pub fn cmd_dispatch<D>(cmd: String, payload: serde_json::Value, dispatch: D) -> (r: Result<
    serde_json::Value,
    String,
>) where D: FnOnce(&str, serde_json::Value) -> Result<serde_json::Value, BridgeError>
    requires
        forall|command: &str, value: serde_json::Value| call_requires(dispatch, (command, value)),
    ensures
        exists|command: &str, reply: Result<serde_json::Value, BridgeError>|
            command@ == cmd@ && call_ensures(dispatch, (command, payload), reply) && flattened(
                reply,
                r,
            ),
{
    let command = cmd.as_str();
    let reply = dispatch(command, payload);
    let r = match reply {
        Ok(value) => Ok(value),
        Err(e) => Err(e.describe()),
    };
    assert(call_ensures(dispatch, (command, payload), reply) && flattened(reply, r));
    r
}

} // verus!
