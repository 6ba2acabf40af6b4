use vstd::prelude::*;
use vstd::pervasive::unreached;
use crate::cache::Cache;
use crate::text::all_ws;
use crate::text::is_affirmative;
use crate::text::is_blank;
use crate::text::spec_is_affirmative;

verus! {

/// Where the interactive protocol stands.
pub enum WorkflowState {
    /// A cached command was shown; waiting for the answer to "execute?".
    ConfirmCached { command: String },
    /// The cached command was declined; waiting for "invalidate the cache?".
    OfferInvalidate,
    /// The gateway must be consulted before anything else happens.
    AwaitGeneration,
    /// A generated command was shown; waiting for the answer to "execute?".
    ConfirmGenerated { command: String },
    /// A terminal state: no further event is accepted.
    Done,
}

/// What the embedder must do next. Every variant carries all the data the
/// step needs, so the embedder never reads workflow internals.
pub enum Effect {
    /// Show the cached command and ask whether to execute it.
    AskExecuteCached { command: String },
    /// Ask whether to invalidate the declined cached command.
    AskInvalidate,
    /// Call the LLM gateway for the stored prompt and feed the outcome back.
    QueryGateway,
    /// Show the freshly generated command and ask whether to execute it.
    AskExecuteGenerated { command: String },
    /// Run the command through the resolved shell, then stop.
    Execute { command: String },
    /// Report that execution was cancelled, then stop.
    ReportCancelled,
    /// Report that no command could be generated, then stop.
    ReportNothingGenerated,
    /// Report a gateway failure, then stop.
    ReportFailure { message: String },
}

/// One step's outcome: when `persist` is set the embedder must write the
/// cache through to durable storage before (or together with) the effect.
pub struct Action {
    pub persist: bool,
    pub effect: Effect,
}

/// What came back from the LLM gateway.
pub enum GenEvent {
    /// The backend answered with a command string (possibly blank).
    Produced { command: String },
    /// The backend answered, but without any command.
    Empty,
    /// The call itself failed (network, authentication, malformed body).
    Failed { message: String },
}

/// The command workflow: decides, event by event, whether a cached command
/// is reused, invalidated or regenerated, when the cache mutates, and what
/// is finally executed. The embedder performs I/O only as the returned
/// `Action`s direct.
pub struct Workflow {
    pub prompt: String,
    pub disable_cache: bool,
    pub cache: Cache,
    pub state: WorkflowState,
}

impl Workflow {
    pub open spec fn wf(&self) -> bool {
        self.cache.wf()
    }

    /// The states in which the next event is a yes/no answer line.
    pub open spec fn expects_answer(&self) -> bool {
        self.state is ConfirmCached || self.state is OfferInvalidate
            || self.state is ConfirmGenerated
    }

    /// Whether the next event must be a yes/no answer line; the embedder
    /// checks this before handing one in.
    pub fn awaiting_answer(&self) -> (r: bool)
        ensures
            r == self.expects_answer(),
    {
        match &self.state {
            WorkflowState::ConfirmCached { .. } => true,
            WorkflowState::OfferInvalidate => true,
            WorkflowState::ConfirmGenerated { .. } => true,
            _ => false,
        }
    }

    /// Whether the next event must be a gateway outcome.
    pub fn awaiting_generation(&self) -> (r: bool)
        ensures
            r == (self.state is AwaitGeneration),
    {
        match &self.state {
            WorkflowState::AwaitGeneration => true,
            _ => false,
        }
    }

    /// Opens the protocol: with caching disabled or on a cache miss the
    /// gateway is consulted; on a hit the cached command is offered first.
    pub fn start(cache: Cache, prompt: String, disable_cache: bool) -> (r: (Workflow, Action))
        requires
            cache.wf(),
        ensures
            r.0.wf(),
            r.0.prompt@ == prompt@,
            r.0.disable_cache == disable_cache,
            r.0.cache@ == cache@,
            !r.1.persist,
            disable_cache || !cache@.contains_key(prompt@) ==> r.0.state is AwaitGeneration
                && r.1.effect is QueryGateway,
            !disable_cache && cache@.contains_key(prompt@) ==> (r.0.state
                matches WorkflowState::ConfirmCached { command } && command@ == cache@[prompt@])
                && (r.1.effect matches Effect::AskExecuteCached { command } && command@
                == cache@[prompt@]),
    {
        if disable_cache {
            let w = Workflow { prompt, disable_cache, cache, state: WorkflowState::AwaitGeneration };
            return (w, Action { persist: false, effect: Effect::QueryGateway });
        }
        let cached = match cache.get(&prompt) {
            Some(c) => Some(c.clone()),
            None => None,
        };
        match cached {
            Some(cmd) => {
                let shown = cmd.clone();
                let w = Workflow {
                    prompt,
                    disable_cache,
                    cache,
                    state: WorkflowState::ConfirmCached { command: cmd },
                };
                (w, Action { persist: false, effect: Effect::AskExecuteCached { command: shown } })
            },
            None => {
                let w = Workflow {
                    prompt,
                    disable_cache,
                    cache,
                    state: WorkflowState::AwaitGeneration,
                };
                (w, Action { persist: false, effect: Effect::QueryGateway })
            },
        }
    }

    /// Consumes one yes/no answer line. Only an exact case-insensitive "y"
    /// is affirmative. A declined cached command leads to the invalidation
    /// offer; a confirmed invalidation removes the entry and persists the
    /// cache before the gateway is consulted; a generated command is
    /// written through to the cache whether or not it is executed.
    pub fn on_answer(&mut self, input: &str) -> (a: Action)
        requires
            old(self).wf(),
            old(self).expects_answer(),
        ensures
            final(self).wf(),
            final(self).prompt@ == old(self).prompt@,
            final(self).disable_cache == old(self).disable_cache,
            old(self).state matches WorkflowState::ConfirmCached { command } ==> (
            if spec_is_affirmative(input@) {
                final(self).state is Done && final(self).cache@ == old(self).cache@ && !a.persist
                    && (a.effect matches Effect::Execute { command: c } && c@ == command@)
            } else {
                final(self).state is OfferInvalidate && final(self).cache@ == old(self).cache@
                    && !a.persist && a.effect is AskInvalidate
            }),
            old(self).state is OfferInvalidate ==> (
            if spec_is_affirmative(input@) {
                final(self).state is AwaitGeneration && final(self).cache@
                    == old(self).cache@.remove(old(self).prompt@) && a.persist && a.effect is QueryGateway
            } else {
                final(self).state is Done && final(self).cache@ == old(self).cache@ && !a.persist
                    && a.effect is ReportCancelled
            }),
            old(self).state matches WorkflowState::ConfirmGenerated { command }
                ==> final(self).state is Done && final(self).cache@ == old(self).cache@.insert(
                old(self).prompt@,
                command@,
            ) && a.persist && (if spec_is_affirmative(input@) {
                a.effect matches Effect::Execute { command: c } && c@ == command@
            } else {
                a.effect is ReportCancelled
            }),
    {
        let yes = is_affirmative(input);
        match &self.state {
            WorkflowState::ConfirmCached { command } => {
                let cmd = command.clone();
                if yes {
                    self.state = WorkflowState::Done;
                    Action { persist: false, effect: Effect::Execute { command: cmd } }
                } else {
                    self.state = WorkflowState::OfferInvalidate;
                    Action { persist: false, effect: Effect::AskInvalidate }
                }
            },
            WorkflowState::OfferInvalidate => {
                if yes {
                    let p = self.prompt.clone();
                    self.cache.remove(&p);
                    self.state = WorkflowState::AwaitGeneration;
                    Action { persist: true, effect: Effect::QueryGateway }
                } else {
                    self.state = WorkflowState::Done;
                    Action { persist: false, effect: Effect::ReportCancelled }
                }
            },
            WorkflowState::ConfirmGenerated { command } => {
                let cmd = command.clone();
                let p = self.prompt.clone();
                self.cache.insert(p, cmd.clone());
                self.state = WorkflowState::Done;
                if yes {
                    Action { persist: true, effect: Effect::Execute { command: cmd } }
                } else {
                    Action { persist: true, effect: Effect::ReportCancelled }
                }
            },
            _ => unreached(),
        }
    }

    /// Consumes the gateway's outcome. A blank or absent command is never
    /// cached and never offered for execution; a failure only reports.
    pub fn on_generation(&mut self, ev: GenEvent) -> (a: Action)
        requires
            old(self).wf(),
            old(self).state is AwaitGeneration,
        ensures
            final(self).wf(),
            final(self).prompt@ == old(self).prompt@,
            final(self).disable_cache == old(self).disable_cache,
            final(self).cache@ == old(self).cache@,
            !a.persist,
            ev matches GenEvent::Produced { command } ==> (
            if all_ws(command@) {
                final(self).state is Done && a.effect is ReportNothingGenerated
            } else {
                (final(self).state matches WorkflowState::ConfirmGenerated { command: c } && c@
                    == command@) && (a.effect matches Effect::AskExecuteGenerated { command: c }
                    && c@ == command@)
            }),
            ev is Empty ==> final(self).state is Done && a.effect is ReportNothingGenerated,
            ev matches GenEvent::Failed { message } ==> final(self).state is Done && (a.effect
                matches Effect::ReportFailure { message: m } && m@ == message@),
    {
        match ev {
            GenEvent::Produced { command } => {
                if is_blank(command.as_str()) {
                    self.state = WorkflowState::Done;
                    Action { persist: false, effect: Effect::ReportNothingGenerated }
                } else {
                    let shown = command.clone();
                    self.state = WorkflowState::ConfirmGenerated { command };
                    Action {
                        persist: false,
                        effect: Effect::AskExecuteGenerated { command: shown },
                    }
                }
            },
            GenEvent::Empty => {
                self.state = WorkflowState::Done;
                Action { persist: false, effect: Effect::ReportNothingGenerated }
            },
            GenEvent::Failed { message } => {
                self.state = WorkflowState::Done;
                Action { persist: false, effect: Effect::ReportFailure { message } }
            },
        }
    }
}

} // verus!
