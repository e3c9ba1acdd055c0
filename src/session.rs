//! One compile request, from its decoded body to its reply. The session
//! decides; its caller performs what each decision asks for (running the
//! compiler, opening the module, sending the reply, removing the module)
//! and reports back what happened.
use vstd::prelude::*;
use crate::artifact::{artifact_path_spec, ArtifactNames};
use crate::error::ServiceError;
use crate::reply::{ContentType, Reply, ReplyBody, STATUS_OK};

verus! {

/// The body of a compile request: a model description and the name of the
/// model to compile from it.
#[derive(Debug)]
pub struct CompileRequest {
    pub text: String,
    pub name: String,
}

/// What the compiler is asked to produce.
#[derive(Clone, Copy, Debug, PartialEq, Eq, Structural)]
pub struct CompilerOptions {
    /// Stop after emitting bitcode.
    pub bitcode_only: bool,
    /// Emit a WebAssembly module.
    pub wasm: bool,
    /// Link a standalone executable.
    pub standalone: bool,
}

/// The options of every compilation: a WebAssembly module, neither a
/// standalone executable nor bare bitcode.
pub open spec fn wasm_options_spec() -> CompilerOptions {
    CompilerOptions { bitcode_only: false, wasm: true, standalone: false }
}

pub fn wasm_options() -> (r: CompilerOptions)
    ensures
        r == wasm_options_spec(),
{
    CompilerOptions { bitcode_only: false, wasm: true, standalone: false }
}

/// One run of the compiler: compile `text` as the model `model_name` and
/// write the result to `out`.
#[derive(Debug)]
pub struct Invocation {
    pub text: String,
    pub out: String,
    pub model_name: String,
    pub options: CompilerOptions,
    /// Read `text` as a discrete model.
    pub discrete: bool,
}

/// `inv` compiles the model of `req` into the file at `path`.
pub open spec fn invokes_for(inv: Invocation, req: CompileRequest, path: Seq<char>) -> bool {
    &&& inv.text@ == req.text@
    &&& inv.model_name@ == req.name@
    &&& inv.out@ == path
    &&& inv.options == wasm_options_spec()
    &&& inv.discrete
}

/// Two sessions given the same request run the same compilation, each into
/// its own file: nothing of one request reaches another.
pub proof fn lemma_same_request_same_compilation(
    req1: CompileRequest,
    req2: CompileRequest,
    path1: Seq<char>,
    path2: Seq<char>,
    inv1: Invocation,
    inv2: Invocation,
)
    requires
        req1.text@ == req2.text@,
        req1.name@ == req2.name@,
        invokes_for(inv1, req1, path1),
        invokes_for(inv2, req2, path2),
    ensures
        inv1.text@ == inv2.text@,
        inv1.model_name@ == inv2.model_name@,
        inv1.options == inv2.options,
        inv1.discrete == inv2.discrete,
        path1 != path2 ==> inv1.out@ != inv2.out@,
{
}

/// Where a compile request stands.
#[derive(Clone, Copy, Debug, PartialEq, Eq, Structural)]
pub enum Stage {
    /// Waiting for the decoded request body.
    Received,
    /// The compiler is writing the module.
    Compiling,
    /// The written module is being opened.
    Opening,
    /// The reply has been decided; nothing is left to do.
    Done,
}

/// What the caller reports back to the session.
#[derive(Debug)]
pub enum Event {
    /// The request body was decoded.
    Decoded(CompileRequest),
    /// The request body could not be decoded, for this reason.
    DecodeFailed(String),
    /// The compiler wrote the module.
    Compiled,
    /// The compiler failed, with this message.
    CompileFailed(String),
    /// The module was opened for reading.
    Opened,
    /// The module could not be opened, for this reason.
    OpenFailed(String),
}

/// What the session asks its caller to do.
#[derive(Debug)]
pub enum Action {
    /// Run the compiler, off the threads that serve requests.
    Invoke(Invocation),
    /// Open the module at this path for reading.
    Open(String),
    /// Send this reply; nothing has to be removed.
    Respond(Reply),
    /// Send this reply, then remove the file at this path, whether or not
    /// the reply reached the client.
    RespondThenRelease(Reply, String),
    /// The event does not belong to this stage: nothing to do.
    Ignore,
}

/// The kind of an action, without its data.
#[derive(Clone, Copy, Debug, PartialEq, Eq, Structural)]
pub enum ActionKind {
    Invoke,
    Open,
    Respond,
    RespondThenRelease,
    Ignore,
}

pub open spec fn kind_of(a: Action) -> ActionKind {
    match a {
        Action::Invoke(_) => ActionKind::Invoke,
        Action::Open(_) => ActionKind::Open,
        Action::Respond(_) => ActionKind::Respond,
        Action::RespondThenRelease(_, _) => ActionKind::RespondThenRelease,
        Action::Ignore => ActionKind::Ignore,
    }
}

/// The stage that follows `s` on event `e`.
pub open spec fn next_stage(s: Stage, e: Event) -> Stage {
    match (s, e) {
        (Stage::Received, Event::Decoded(_)) => Stage::Compiling,
        (Stage::Received, Event::DecodeFailed(_)) => Stage::Done,
        (Stage::Compiling, Event::Compiled) => Stage::Opening,
        (Stage::Compiling, Event::CompileFailed(_)) => Stage::Done,
        (Stage::Opening, Event::Opened) => Stage::Done,
        (Stage::Opening, Event::OpenFailed(_)) => Stage::Done,
        _ => s,
    }
}

/// The kind of action that the session takes in stage `s` on event `e`.
pub open spec fn next_kind(s: Stage, e: Event) -> ActionKind {
    match (s, e) {
        (Stage::Received, Event::Decoded(_)) => ActionKind::Invoke,
        (Stage::Received, Event::DecodeFailed(_)) => ActionKind::Respond,
        (Stage::Compiling, Event::Compiled) => ActionKind::Open,
        (Stage::Compiling, Event::CompileFailed(_)) => ActionKind::RespondThenRelease,
        (Stage::Opening, Event::Opened) => ActionKind::RespondThenRelease,
        (Stage::Opening, Event::OpenFailed(_)) => ActionKind::RespondThenRelease,
        _ => ActionKind::Ignore,
    }
}

/// The session of one compile request, with the path that its module is
/// written to. No other request uses that path.
#[derive(Debug)]
pub struct CompileSession {
    pub path: String,
    pub stage: Stage,
}

impl CompileSession {
    pub fn new(path: String) -> (r: CompileSession)
        ensures
            r.path == path,
            r.stage == Stage::Received,
    {
        CompileSession { path, stage: Stage::Received }
    }

    /// A session for the next request, with a fresh module path in `dir`;
    /// `None` once `names` has no request number left.
    pub fn start(names: &mut ArtifactNames, dir: &str) -> (r: Option<CompileSession>)
        ensures
            final(names).instance == old(names).instance,
            r is None <==> old(names).next == u64::MAX,
            r matches Some(s) ==> {
                &&& s.stage == Stage::Received
                &&& s.path@ == artifact_path_spec(dir@, old(names).instance as nat, old(names).next as nat)
                &&& final(names).next == old(names).next + 1
            },
    {
        match names.issue(dir) {
            Some(path) => Some(CompileSession::new(path)),
            None => None,
        }
    }

    /// Takes the next event and says what to do about it.
    pub fn handle(&mut self, e: Event) -> (r: Action)
        ensures
            final(self).path == old(self).path,
            final(self).stage == next_stage(old(self).stage, e),
            kind_of(r) == next_kind(old(self).stage, e),
            old(self).stage == Stage::Received ==> match (e, r) {
                (Event::Decoded(req), Action::Invoke(inv)) => invokes_for(inv, req, old(self).path@),
                (Event::DecodeFailed(m), Action::Respond(reply)) => {
                    &&& reply.status == ServiceError::InvalidRequest(m).status_spec()
                    &&& reply.content_type == ContentType::PlainText
                    &&& reply.text_body() == Some(ServiceError::InvalidRequest(m).description())
                },
                _ => kind_of(r) == ActionKind::Ignore,
            },
            old(self).stage == Stage::Compiling ==> match (e, r) {
                (Event::Compiled, Action::Open(p)) => p@ == old(self).path@,
                (Event::CompileFailed(m), Action::RespondThenRelease(reply, p)) => {
                    &&& p@ == old(self).path@
                    &&& reply.status == ServiceError::CompilationFailed(m).status_spec()
                    &&& reply.content_type == ContentType::PlainText
                    &&& reply.text_body() == Some(ServiceError::CompilationFailed(m).description())
                },
                _ => kind_of(r) == ActionKind::Ignore,
            },
            old(self).stage == Stage::Opening ==> match (e, r) {
                (Event::Opened, Action::RespondThenRelease(reply, p)) => {
                    &&& p@ == old(self).path@
                    &&& reply.status == STATUS_OK
                    &&& reply.content_type == ContentType::Wasm
                    &&& reply.body matches ReplyBody::Artifact(q) && q@ == old(self).path@
                },
                (Event::OpenFailed(m), Action::RespondThenRelease(reply, p)) => {
                    &&& p@ == old(self).path@
                    &&& reply.status == ServiceError::ArtifactIo(m).status_spec()
                    &&& reply.content_type == ContentType::PlainText
                    &&& reply.text_body() == Some(ServiceError::ArtifactIo(m).description())
                },
                _ => kind_of(r) == ActionKind::Ignore,
            },
            old(self).stage == Stage::Done ==> kind_of(r) == ActionKind::Ignore,
    {
        match (self.stage, e) {
            (Stage::Received, Event::Decoded(req)) => {
                self.stage = Stage::Compiling;
                Action::Invoke(
                    Invocation {
                        text: req.text,
                        out: self.path.clone(),
                        model_name: req.name,
                        options: wasm_options(),
                        discrete: true,
                    },
                )
            },
            (Stage::Received, Event::DecodeFailed(m)) => {
                self.stage = Stage::Done;
                Action::Respond(ServiceError::InvalidRequest(m).into_response())
            },
            (Stage::Compiling, Event::Compiled) => {
                self.stage = Stage::Opening;
                Action::Open(self.path.clone())
            },
            (Stage::Compiling, Event::CompileFailed(m)) => {
                self.stage = Stage::Done;
                Action::RespondThenRelease(
                    ServiceError::CompilationFailed(m).into_response(),
                    self.path.clone(),
                )
            },
            (Stage::Opening, Event::Opened) => {
                self.stage = Stage::Done;
                Action::RespondThenRelease(Reply::artifact(self.path.clone()), self.path.clone())
            },
            (Stage::Opening, Event::OpenFailed(m)) => {
                self.stage = Stage::Done;
                Action::RespondThenRelease(ServiceError::ArtifactIo(m).into_response(), self.path.clone())
            },
            _ => Action::Ignore,
        }
    }
}

/// The stage reached from `s` through `events`, and the kinds of the
/// actions taken on the way, in order.
pub open spec fn run(s: Stage, events: Seq<Event>) -> (Stage, Seq<ActionKind>)
    decreases events.len(),
{
    if events.len() == 0 {
        (s, Seq::empty())
    } else {
        let rest = run(next_stage(s, events[0]), events.drop_first());
        (rest.0, seq![next_kind(s, events[0])] + rest.1)
    }
}

proof fn lemma_contains_after(k: ActionKind, ks: Seq<ActionKind>, x: ActionKind)
    ensures
        (seq![k] + ks).contains(x) <==> (k == x || ks.contains(x)),
{
    let all = seq![k] + ks;
    if ks.contains(x) {
        let i = choose|i: int| 0 <= i < ks.len() && ks[i] == x;
        assert(all[i + 1] == x);
    }
    if k == x {
        assert(all[0] == x);
    }
    if all.contains(x) {
        let i = choose|i: int| 0 <= i < all.len() && all[i] == x;
        if i > 0 {
            assert(ks[i - 1] == x);
        }
    }
}

proof fn lemma_run_from(s: Stage, events: Seq<Event>)
    ensures
        ({
            let (t, ks) = run(s, events);
            &&& s == Stage::Done ==> t == Stage::Done && !ks.contains(ActionKind::Invoke)
                && !ks.contains(ActionKind::Respond) && !ks.contains(ActionKind::RespondThenRelease)
            &&& (s == Stage::Compiling || s == Stage::Opening) ==> {
                &&& !ks.contains(ActionKind::Invoke)
                &&& !ks.contains(ActionKind::Respond)
                &&& ks.contains(ActionKind::RespondThenRelease) <==> t == Stage::Done
            }
            &&& s == Stage::Received ==> {
                &&& ks.contains(ActionKind::RespondThenRelease) <==> (ks.contains(ActionKind::Invoke)
                    && t == Stage::Done)
                &&& (ks.contains(ActionKind::Respond) || ks.contains(ActionKind::RespondThenRelease))
                    <==> t == Stage::Done
            }
        }),
    decreases events.len(),
{
    if events.len() > 0 {
        let n = next_stage(s, events[0]);
        let k = next_kind(s, events[0]);
        lemma_run_from(n, events.drop_first());
        let ks = run(n, events.drop_first()).1;
        lemma_contains_after(k, ks, ActionKind::Invoke);
        lemma_contains_after(k, ks, ActionKind::Respond);
        lemma_contains_after(k, ks, ActionKind::RespondThenRelease);
    }
}

/// A request whose compiler was started has its module removed exactly when
/// the request is finished, on success and on every failure alike; a request
/// whose compiler never ran has nothing removed. Every finished request is
/// answered.
pub proof fn lemma_module_released_when_finished(events: Seq<Event>)
    ensures
        ({
            let (t, ks) = run(Stage::Received, events);
            &&& ks.contains(ActionKind::RespondThenRelease) <==> (ks.contains(ActionKind::Invoke)
                && t == Stage::Done)
            &&& (ks.contains(ActionKind::Respond) || ks.contains(ActionKind::RespondThenRelease))
                <==> t == Stage::Done
        }),
{
    lemma_run_from(Stage::Received, events);
}

/// A request whose body could not be decoded is answered at once and never
/// reaches the compiler, whatever is reported afterwards.
pub proof fn lemma_undecodable_request_never_compiled(events: Seq<Event>)
    requires
        events.len() > 0,
        events[0] is DecodeFailed,
    ensures
        ({
            let (t, ks) = run(Stage::Received, events);
            &&& t == Stage::Done
            &&& ks[0] == ActionKind::Respond
            &&& !ks.contains(ActionKind::Invoke)
            &&& !ks.contains(ActionKind::RespondThenRelease)
        }),
{
    let ks = run(Stage::Done, events.drop_first()).1;
    lemma_run_from(Stage::Done, events.drop_first());
    lemma_contains_after(ActionKind::Respond, ks, ActionKind::Invoke);
    lemma_contains_after(ActionKind::Respond, ks, ActionKind::RespondThenRelease);
}

} // verus!
