//! Running a plan of calls: the host performs the pending call, reports what
//! it observed, and the session decides what follows.
//!
//! A report can let the plan go on, can ask for one more call that fetches
//! the driver's diagnostic, or can end the session with a failure. After a
//! failure nothing is pending any more.

use vstd::prelude::*;
use crate::error::{Fault, Resource, StartupError};
use crate::gl::{GlCall, GlReply, COMPILE_STATUS, LINK_STATUS};

verus! {

/// What a report means for the session.
#[derive(Clone, Debug, PartialEq, Eq)]
pub enum Verdict {
    /// The call did what the plan needs; the next one may follow.
    Proceed,
    /// The call failed and the driver can say why: perform this call next.
    Probe(GlCall),
    /// Start-up has failed.
    Abort(StartupError),
}

/// The model of a [`Verdict`].
pub enum VerdictView {
    Proceed,
    Probe(GlCall),
    Abort(Fault),
}

impl View for Verdict {
    type V = VerdictView;

    open spec fn view(&self) -> VerdictView {
        match *self {
            Verdict::Proceed => VerdictView::Proceed,
            Verdict::Probe(call) => VerdictView::Probe(call),
            Verdict::Abort(error) => VerdictView::Abort(error@),
        }
    }
}

/// The text that a log query brought, or `fallback` where it brought none.
pub open spec fn text_or(reply: GlReply, fallback: Seq<char>) -> Seq<char> {
    match reply {
        GlReply::Text(Some(text)) => text@,
        _ => fallback,
    }
}

/// An object exists after the call that creates it, or start-up fails for
/// want of `resource`.
pub open spec fn created_or_missing(reply: GlReply, resource: Resource) -> VerdictView {
    if reply == GlReply::Created(true) {
        VerdictView::Proceed
    } else {
        VerdictView::Abort(Fault::ResourceAllocation { resource })
    }
}

/// What `reply` to `call` means.
///
/// - A shader or program that was not created ends start-up at once.
/// - A compile or link status other than `true` asks for the matching log.
/// - A log ends start-up, with the log's text as the message, or a fixed
///   text where the driver holds no log.
/// - A buffer, vertex array, framebuffer or texture that was not created,
///   and texture storage whose allocation raised, end start-up.
/// - Every other report lets the plan go on.
pub open spec fn judge_spec(call: GlCall, reply: GlReply) -> VerdictView {
    match call {
        GlCall::CreateShader { kind } => if reply == GlReply::Created(true) {
            VerdictView::Proceed
        } else {
            VerdictView::Abort(
                Fault::ShaderCompile { kind, message: "Unable to create shader object"@ },
            )
        },
        GlCall::GetShaderParameter { shader, pname } => if pname != COMPILE_STATUS || reply
            == GlReply::Flag(Some(true)) {
            VerdictView::Proceed
        } else {
            VerdictView::Probe(GlCall::GetShaderInfoLog { shader })
        },
        GlCall::GetShaderInfoLog { shader } => VerdictView::Abort(
            Fault::ShaderCompile {
                kind: shader,
                message: text_or(reply, "Unknown error creating shader"@),
            },
        ),
        GlCall::CreateProgram => if reply == GlReply::Created(true) {
            VerdictView::Proceed
        } else {
            VerdictView::Abort(Fault::ProgramLink { message: "Unable to create shader object"@ })
        },
        GlCall::GetProgramParameter { pname } => if pname != LINK_STATUS || reply
            == GlReply::Flag(Some(true)) {
            VerdictView::Proceed
        } else {
            VerdictView::Probe(GlCall::GetProgramInfoLog)
        },
        GlCall::GetProgramInfoLog => VerdictView::Abort(
            Fault::ProgramLink {
                message: text_or(reply, "Unknown error creating program object"@),
            },
        ),
        GlCall::CreateBuffer => created_or_missing(reply, Resource::Buffer),
        GlCall::CreateVertexArray => created_or_missing(reply, Resource::VertexArray),
        GlCall::CreateFramebuffer => created_or_missing(reply, Resource::Framebuffer),
        GlCall::CreateTexture => created_or_missing(reply, Resource::Texture),
        GlCall::TexImage2d { .. } => if reply == GlReply::Raised {
            VerdictView::Abort(Fault::ResourceAllocation { resource: Resource::TextureStorage })
        } else {
            VerdictView::Proceed
        },
        _ => VerdictView::Proceed,
    }
}

fn text_or_else(reply: GlReply, fallback: &str) -> (text: String)
    ensures
        text@ == text_or(reply, fallback@),
{
    match reply {
        GlReply::Text(Some(text)) => text,
        _ => fallback.to_owned(),
    }
}

fn created_or(reply: GlReply, resource: Resource) -> (verdict: Verdict)
    ensures
        verdict@ == created_or_missing(reply, resource),
{
    match reply {
        GlReply::Created(true) => Verdict::Proceed,
        _ => Verdict::Abort(StartupError::ResourceAllocation { resource }),
    }
}

/// Judges the host's report of one call.
pub fn judge(call: GlCall, reply: GlReply) -> (verdict: Verdict)
    ensures
        verdict@ == judge_spec(call, reply),
{
    match call {
        GlCall::CreateShader { kind } => match reply {
            GlReply::Created(true) => Verdict::Proceed,
            _ => Verdict::Abort(
                StartupError::ShaderCompile {
                    kind,
                    message: "Unable to create shader object".to_owned(),
                },
            ),
        },
        GlCall::GetShaderParameter { shader, pname } => {
            if pname != COMPILE_STATUS {
                Verdict::Proceed
            } else {
                match reply {
                    GlReply::Flag(Some(true)) => Verdict::Proceed,
                    _ => Verdict::Probe(GlCall::GetShaderInfoLog { shader }),
                }
            }
        },
        GlCall::GetShaderInfoLog { shader } => Verdict::Abort(
            StartupError::ShaderCompile {
                kind: shader,
                message: text_or_else(reply, "Unknown error creating shader"),
            },
        ),
        GlCall::CreateProgram => match reply {
            GlReply::Created(true) => Verdict::Proceed,
            _ => Verdict::Abort(
                StartupError::ProgramLink { message: "Unable to create shader object".to_owned() },
            ),
        },
        GlCall::GetProgramParameter { pname } => {
            if pname != LINK_STATUS {
                Verdict::Proceed
            } else {
                match reply {
                    GlReply::Flag(Some(true)) => Verdict::Proceed,
                    _ => Verdict::Probe(GlCall::GetProgramInfoLog),
                }
            }
        },
        GlCall::GetProgramInfoLog => Verdict::Abort(
            StartupError::ProgramLink {
                message: text_or_else(reply, "Unknown error creating program object"),
            },
        ),
        GlCall::CreateBuffer => created_or(reply, Resource::Buffer),
        GlCall::CreateVertexArray => created_or(reply, Resource::VertexArray),
        GlCall::CreateFramebuffer => created_or(reply, Resource::Framebuffer),
        GlCall::CreateTexture => created_or(reply, Resource::Texture),
        GlCall::TexImage2d { .. } => match reply {
            GlReply::Raised => Verdict::Abort(
                StartupError::ResourceAllocation { resource: Resource::TextureStorage },
            ),
            _ => Verdict::Proceed,
        },
        _ => Verdict::Proceed,
    }
}

/// The model of a [`Session`].
pub struct SessionView {
    /// The calls to perform, in order.
    pub plan: Seq<GlCall>,
    /// How many calls of the plan have been performed and accepted.
    pub cursor: nat,
    /// The diagnostic query that stands before the plan goes on, if any.
    pub probe: Option<GlCall>,
    /// Why the session failed, once it has.
    pub failure: Option<Fault>,
}

impl SessionView {
    /// A session that has performed nothing yet.
    pub open spec fn start(plan: Seq<GlCall>) -> SessionView {
        SessionView { plan, cursor: 0, probe: None, failure: None }
    }

    /// The cursor stays within the plan, and a probe stands for a call of
    /// the plan.
    pub open spec fn wf(self) -> bool {
        &&& self.cursor <= self.plan.len()
        &&& self.probe is Some ==> self.cursor < self.plan.len()
    }

    /// The call that the host has to perform now.
    pub open spec fn pending(self) -> Option<GlCall> {
        if self.failure is Some {
            None
        } else if self.probe is Some {
            self.probe
        } else if self.cursor < self.plan.len() {
            Some(self.plan[self.cursor as int])
        } else {
            None
        }
    }

    /// Every call of the plan was performed and accepted.
    pub open spec fn complete(self) -> bool {
        self.failure is None && self.probe is None && self.cursor >= self.plan.len()
    }

    /// The session after the host's report of the pending call. Where
    /// nothing is pending, the report changes nothing.
    pub open spec fn step(self, reply: GlReply) -> SessionView {
        match self.pending() {
            None => self,
            Some(call) => match judge_spec(call, reply) {
                VerdictView::Proceed => SessionView {
                    cursor: self.cursor + 1,
                    probe: None,
                    ..self
                },
                VerdictView::Probe(query) => SessionView { probe: Some(query), ..self },
                VerdictView::Abort(fault) => SessionView { failure: Some(fault), ..self },
            },
        }
    }

    /// The session after the host's reports `replies`, taken in order.
    pub open spec fn run(self, replies: Seq<GlReply>) -> SessionView
        decreases replies.len(),
    {
        if replies.len() == 0 {
            self
        } else {
            self.run(replies.drop_last()).step(replies.last())
        }
    }
}

/// A report never changes the plan, and never moves the cursor out of it.
pub proof fn lemma_step_keeps_plan(session: SessionView, reply: GlReply)
    requires
        session.wf(),
    ensures
        session.step(reply).wf(),
        session.step(reply).plan == session.plan,
{
}

/// A failure is final: nothing is pending after it, and no later report
/// changes the session.
pub proof fn lemma_failure_is_final(session: SessionView, replies: Seq<GlReply>)
    requires
        session.failure is Some,
    ensures
        session.pending() is None,
        session.run(replies) == session,
    decreases replies.len(),
{
    if replies.len() > 0 {
        lemma_failure_is_final(session, replies.drop_last());
    }
}

/// Where the host's reports let every call pass, the session asks for the
/// calls of the plan one by one, in the plan's order.
pub proof fn lemma_accepted_calls_follow_plan(plan: Seq<GlCall>, replies: Seq<GlReply>)
    requires
        replies.len() <= plan.len(),
        forall|i: int|
            0 <= i < replies.len() ==> judge_spec(plan[i], #[trigger] replies[i])
                is Proceed,
    ensures
        SessionView::start(plan).run(replies) == (SessionView {
            cursor: replies.len(),
            ..SessionView::start(plan)
        }),
        replies.len() < plan.len() ==> SessionView::start(plan).run(replies).pending() == Some(
            plan[replies.len() as int],
        ),
        replies.len() == plan.len() ==> SessionView::start(plan).run(replies).complete(),
    decreases replies.len(),
{
    if replies.len() > 0 {
        let before = replies.drop_last();
        assert forall|i: int| 0 <= i < before.len() implies judge_spec(
            plan[i],
            #[trigger] before[i],
        ) is Proceed by {
            assert(before[i] == replies[i]);
        }
        lemma_accepted_calls_follow_plan(plan, before);
        assert(judge_spec(plan[replies.len() - 1], replies[replies.len() - 1]) is Proceed);
        assert(replies.last() == replies[replies.len() - 1]);
    }
}

/// A plan in progress.
pub struct Session {
    plan: Vec<GlCall>,
    cursor: usize,
    probe: Option<GlCall>,
    failure: Option<StartupError>,
}

impl View for Session {
    type V = SessionView;

    closed spec fn view(&self) -> SessionView {
        SessionView {
            plan: self.plan@,
            cursor: self.cursor as nat,
            probe: self.probe,
            failure: match self.failure {
                Some(error) => Some(error@),
                None => None,
            },
        }
    }
}

impl Session {
    #[verifier::type_invariant]
    closed spec fn inv(self) -> bool {
        self@.wf()
    }

    /// Starts on `plan`.
    pub fn new(plan: Vec<GlCall>) -> (session: Session)
        ensures
            session@ == SessionView::start(plan@),
    {
        Session { plan, cursor: 0, probe: None, failure: None }
    }

    /// The call that the host has to perform now; `None` once the plan is
    /// through or the session has failed.
    pub fn pending(&self) -> (call: Option<GlCall>)
        ensures
            call == self@.pending(),
    {
        if self.failure.is_some() {
            None
        } else if self.probe.is_some() {
            self.probe
        } else if self.cursor < self.plan.len() {
            Some(self.plan[self.cursor])
        } else {
            None
        }
    }

    /// Takes the host's report of the pending call.
    pub fn resolve(&mut self, reply: GlReply)
        ensures
            final(self)@ == old(self)@.step(reply),
    {
        proof {
            use_type_invariant(&*self);
            assert(self@.wf());
        }
        match self.pending() {
            None => {},
            Some(call) => match judge(call, reply) {
                Verdict::Proceed => {
                    assert(self.cursor < self.plan.len());
                    self.probe = None;
                    self.cursor = self.cursor + 1;
                },
                Verdict::Probe(query) => {
                    self.probe = Some(query);
                },
                Verdict::Abort(error) => {
                    self.failure = Some(error);
                },
            },
        }
    }

    /// Whether every call of the plan was performed and accepted.
    pub fn is_complete(&self) -> (done: bool)
        ensures
            done == self@.complete(),
    {
        self.failure.is_none() && self.probe.is_none() && self.cursor >= self.plan.len()
    }

    /// Why the session failed, once it has.
    pub fn failure(&self) -> (error: Option<&StartupError>)
        ensures
            error is Some <==> self@.failure is Some,
            error matches Some(e) ==> self@.failure == Some(e@),
    {
        self.failure.as_ref()
    }
}

} // verus!
