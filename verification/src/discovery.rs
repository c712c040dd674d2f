//! Discovery of a shared GPU execution context among the stages of one
//! pipeline.
//!
//! A context travels between stages as a typed token: a capability carrying
//! a fixed type-tag string and the identity of the embedded context. A
//! token whose tag does not match the requested type is ignored, never an
//! error.
//!
//! Discovery tries, in this order, first success winning: the token the
//! stage already holds; the responses of the downstream neighbors, then the
//! upstream ones (a neighbor that cannot be queried or declines is skipped,
//! not fatal); a pipeline-wide "need context" announcement followed by one
//! local re-check (the coordinator may have supplied a token reactively);
//! and finally self-creation of a fresh context, which the stage announces
//! so that later stages can reuse it. Neighbors are always consulted before
//! the broadcast. The adopted token is set on the stage itself, so stages
//! reached later see it without querying past this stage.

use vstd::prelude::*;

verus! {

/// A typed capability naming one shared GPU execution context.
pub struct ContextToken {
    /// The fixed string identifying what kind of context the token carries.
    pub context_type: String,
    /// The identity of the embedded context; two tokens with the same
    /// identity share one context.
    pub ctx_id: u64,
}

/// Where a stage's discovery obtained its context.
#[derive(Debug, Clone, Copy, PartialEq, Eq, Structural)]
pub enum DiscoverySource {
    /// The stage already held a matching token.
    Local,
    /// A downstream neighbor responded with a matching token.
    Downstream,
    /// An upstream neighbor responded with a matching token.
    Upstream,
    /// The pipeline coordinator supplied a token after the broadcast.
    Broadcast,
    /// No matching token anywhere: the stage created its own context and
    /// announces it to the pipeline.
    SelfCreated,
}

/// An optional reply carries a token of the requested type.
pub open spec fn opt_matches(t: Option<ContextToken>, tag: Seq<char>) -> bool {
    t is Some && t->0.context_type@ == tag
}

/// The first reply, in order, that carries a token of the requested type.
pub open spec fn first_match(replies: Seq<Option<ContextToken>>, tag: Seq<char>) -> Option<
    ContextToken,
>
    decreases replies.len(),
{
    if replies.len() == 0 {
        None
    } else if opt_matches(replies[0], tag) {
        replies[0]
    } else {
        first_match(replies.skip(1), tag)
    }
}

/// What a stage can observe while discovering: its neighbors' replies (in
/// pad order, downstream then upstream) and what the coordinator supplied
/// after a "need context" broadcast.
pub struct StageEnv {
    pub downstream: Vec<Option<ContextToken>>,
    pub upstream: Vec<Option<ContextToken>>,
    pub broadcast: Option<ContextToken>,
}

/// The token a stage holds, if any.
pub struct StageState {
    pub token: Option<ContextToken>,
}

/// The context identity and source that discovery yields for a stage in a
/// given environment: the local token, else the first matching downstream
/// reply, else the first matching upstream reply, else the broadcast
/// supply, else a fresh self-created context.
pub open spec fn spec_discover(
    stage: StageState,
    env: StageEnv,
    tag: Seq<char>,
    fresh_id: u64,
) -> (u64, DiscoverySource) {
    if opt_matches(stage.token, tag) {
        (stage.token->0.ctx_id, DiscoverySource::Local)
    } else if first_match(env.downstream@, tag) is Some {
        (first_match(env.downstream@, tag)->0.ctx_id, DiscoverySource::Downstream)
    } else if first_match(env.upstream@, tag) is Some {
        (first_match(env.upstream@, tag)->0.ctx_id, DiscoverySource::Upstream)
    } else if opt_matches(env.broadcast, tag) {
        (env.broadcast->0.ctx_id, DiscoverySource::Broadcast)
    } else {
        (fresh_id, DiscoverySource::SelfCreated)
    }
}

/// Some observable source holds a token of the requested type.
pub open spec fn any_match(stage: StageState, env: StageEnv, tag: Seq<char>) -> bool {
    ||| opt_matches(stage.token, tag)
    ||| exists|i: int| 0 <= i < env.downstream@.len() && opt_matches(#[trigger] env.downstream@[i], tag)
    ||| exists|i: int| 0 <= i < env.upstream@.len() && opt_matches(#[trigger] env.upstream@[i], tag)
    ||| opt_matches(env.broadcast, tag)
}

/// The context identity `id` is that of a token some observable source
/// holds.
pub open spec fn id_among(stage: StageState, env: StageEnv, tag: Seq<char>, id: u64) -> bool {
    ||| (opt_matches(stage.token, tag) && stage.token->0.ctx_id == id)
    ||| exists|i: int|
        0 <= i < env.downstream@.len() && opt_matches(#[trigger] env.downstream@[i], tag)
            && env.downstream@[i]->0.ctx_id == id
    ||| exists|i: int|
        0 <= i < env.upstream@.len() && opt_matches(#[trigger] env.upstream@[i], tag)
            && env.upstream@[i]->0.ctx_id == id
    ||| (opt_matches(env.broadcast, tag) && env.broadcast->0.ctx_id == id)
}

/// A reply list's first match, if any, is a matching entry of the list;
/// and there is a first match exactly when some entry matches.
proof fn lemma_first_match_found(replies: Seq<Option<ContextToken>>, tag: Seq<char>)
    ensures
        first_match(replies, tag) is Some <==> exists|i: int|
            0 <= i < replies.len() && opt_matches(#[trigger] replies[i], tag),
        first_match(replies, tag) is Some ==> exists|i: int|
            0 <= i < replies.len() && opt_matches(#[trigger] replies[i], tag) && replies[i]
                == first_match(replies, tag),
    decreases replies.len(),
{
    if replies.len() == 0 {
    } else if opt_matches(replies[0], tag) {
        assert(opt_matches(replies[0], tag));
    } else {
        lemma_first_match_found(replies.skip(1), tag);
        assert forall|i: int|
            0 <= i < replies.skip(1).len() && opt_matches(
                #[trigger] replies.skip(1)[i],
                tag,
            ) implies opt_matches(replies[i + 1], tag) by {}
        if first_match(replies, tag) is Some {
            let j = choose|i: int|
                0 <= i < replies.skip(1).len() && opt_matches(#[trigger] replies.skip(1)[i], tag)
                    && replies.skip(1)[i] == first_match(replies.skip(1), tag);
            assert(replies[j + 1] == first_match(replies, tag));
            assert(opt_matches(replies[j + 1], tag));
        }
        if exists|i: int| 0 <= i < replies.len() && opt_matches(#[trigger] replies[i], tag) {
            let j = choose|i: int|
                0 <= i < replies.len() && opt_matches(#[trigger] replies[i], tag);
            if j > 0 {
                assert(replies.skip(1)[j - 1] == replies[j]);
            }
        }
    }
}

/// Dropping a prefix of replies none of which matches does not change the
/// first match.
proof fn lemma_first_match_skip(replies: Seq<Option<ContextToken>>, tag: Seq<char>, k: int)
    requires
        0 <= k <= replies.len(),
        forall|i: int| 0 <= i < k ==> !opt_matches(#[trigger] replies[i], tag),
    ensures
        first_match(replies, tag) == first_match(replies.skip(k), tag),
    decreases k,
{
    if k > 0 {
        lemma_first_match_skip(replies, tag, k - 1);
        let s = replies.skip(k - 1);
        assert(s[0] == replies[k - 1]);
        assert(!opt_matches(s[0], tag));
        assert(s.skip(1) =~= replies.skip(k));
    } else {
        assert(replies.skip(0) =~= replies);
    }
}

impl ContextToken {
    /// Wraps a context identity as a token of the given type.
    pub fn new(context_type: String, ctx_id: u64) -> (t: ContextToken)
        ensures
            t.context_type == context_type,
            t.ctx_id == ctx_id,
    {
        ContextToken { context_type, ctx_id }
    }

    /// Whether the token is of the requested type.
    pub fn has_type(&self, tag: &String) -> (r: bool)
        ensures
            r == (self.context_type@ == tag@),
    {
        self.context_type == *tag
    }
}

/// Reads the context identity out of a token of the requested type; a
/// token of any other type is ignored (`None`), never an error.
pub fn map_context_token(token: &ContextToken, tag: &String) -> (r: Option<u64>)
    ensures
        token.context_type@ == tag@ ==> r == Some(token.ctx_id),
        token.context_type@ != tag@ ==> r is None,
{
    if token.has_type(tag) {
        Some(token.ctx_id)
    } else {
        None
    }
}

/// Finds the identity carried by the first matching reply, skipping failed
/// or declined neighbors and tokens of other types.
fn find_first_match(replies: &Vec<Option<ContextToken>>, tag: &String) -> (r: Option<u64>)
    ensures
        match first_match(replies@, tag@) {
            Some(t) => r == Some(t.ctx_id),
            None => r is None,
        },
{
    let mut k: usize = 0;
    while k < replies.len()
        invariant
            k <= replies@.len(),
            forall|i: int| 0 <= i < k ==> !opt_matches(#[trigger] replies@[i], tag@),
        decreases replies@.len() - k,
    {
        match &replies[k] {
            Some(t) => {
                if t.has_type(tag) {
                    proof {
                        lemma_first_match_skip(replies@, tag@, k as int);
                        assert(replies@.skip(k as int)[0] == replies@[k as int]);
                    }
                    return Some(t.ctx_id);
                }
            },
            None => {},
        }
        k = k + 1;
    }
    proof {
        lemma_first_match_skip(replies@, tag@, k as int);
        assert(replies@.skip(k as int).len() == 0);
    }
    None
}

impl StageState {
    /// A freshly started stage holds no token.
    pub fn new() -> (s: StageState)
        ensures
            s.token is None,
    {
        StageState { token: None }
    }

    /// Whether the stage already holds a token.
    pub fn check_context_exists(&self) -> (r: bool)
        ensures
            r == (self.token is Some),
    {
        self.token.is_some()
    }

    /// Keeps the given token, unless one is already held: the first context
    /// a stage adopts sticks.
    pub fn set_wgpu_context(&mut self, t: ContextToken)
        ensures
            old(self).token is Some ==> *final(self) == *old(self),
            old(self).token is None ==> final(self).token == Some(t),
    {
        if self.token.is_some() {
            return ;
        }
        self.token = Some(t);
    }

    /// Adopts a token handed down by the host, if its type matches the
    /// requested one; a mismatched token is ignored, not an error.
    pub fn set_context(&mut self, t: ContextToken, tag: &String)
        ensures
            t.context_type@ != tag@ ==> *final(self) == *old(self),
            t.context_type@ == tag@ && old(self).token is Some ==> *final(self) == *old(self),
            t.context_type@ == tag@ && old(self).token is None ==> final(self).token == Some(t),
    {
        if t.has_type(tag) {
            self.set_wgpu_context(t);
        }
    }

    /// Runs discovery for this stage: local token, then downstream and
    /// upstream neighbors, then the broadcast supply, then self-creation
    /// with the fresh identity. The stage ends up holding a token of the
    /// requested type whose context identity is the discovered one, and
    /// reports where it came from; a self-created context must be announced
    /// to the pipeline by the caller.
    pub fn discover(&mut self, env: &StageEnv, tag: &String, fresh_id: u64) -> (r: DiscoverySource)
        ensures
            ({
                let (id, src) = spec_discover(*old(self), *env, tag@, fresh_id);
                &&& r == src
                &&& final(self).token is Some
                &&& final(self).token->0.ctx_id == id
                &&& final(self).token->0.context_type@ == tag@
                &&& (src is Local ==> *final(self) == *old(self))
            }),
    {
        let local = match &self.token {
            Some(t) => {
                if t.has_type(tag) {
                    Some(t.ctx_id)
                } else {
                    None
                }
            },
            None => None,
        };
        if let Some(_id) = local {
            return DiscoverySource::Local;
        }
        if let Some(id) = find_first_match(&env.downstream, tag) {
            proof {
                lemma_first_match_found(env.downstream@, tag@);
            }
            self.token = Some(ContextToken { context_type: clone_string(tag), ctx_id: id });
            return DiscoverySource::Downstream;
        }
        if let Some(id) = find_first_match(&env.upstream, tag) {
            proof {
                lemma_first_match_found(env.upstream@, tag@);
            }
            self.token = Some(ContextToken { context_type: clone_string(tag), ctx_id: id });
            return DiscoverySource::Upstream;
        }
        // The "need context" announcement was posted; the broadcast field
        // holds whatever the coordinator supplied before the re-check.
        let from_broadcast = match &env.broadcast {
            Some(t) => {
                if t.has_type(tag) {
                    Some(t.ctx_id)
                } else {
                    None
                }
            },
            None => None,
        };
        if let Some(id) = from_broadcast {
            self.token = Some(ContextToken { context_type: clone_string(tag), ctx_id: id });
            return DiscoverySource::Broadcast;
        }
        self.token = Some(ContextToken { context_type: clone_string(tag), ctx_id: fresh_id });
        DiscoverySource::SelfCreated
    }
}

/// A copy of a string, character for character.
fn clone_string(s: &String) -> (r: String)
    ensures
        r@ == s@,
{
    s.clone()
}

/// The fixed type tag under which a GPU execution context travels between
/// stages.
pub fn wgpu_context_type_tag() -> (r: String)
    ensures
        r@ == "rust.wgpu.Context"@,
{
    "rust.wgpu.Context".to_owned()
}

/// Law: discovery never invents a context when a matching one is
/// observable; the discovered identity is that of an existing token (for a
/// neighbor's token: reference-identical sharing), and the source is never
/// self-creation.
pub proof fn lemma_discovery_adopts_existing(
    stage: StageState,
    env: StageEnv,
    tag: Seq<char>,
    fresh_id: u64,
)
    requires
        any_match(stage, env, tag),
    ensures
        !(spec_discover(stage, env, tag, fresh_id).1 is SelfCreated),
        id_among(stage, env, tag, spec_discover(stage, env, tag, fresh_id).0),
{
    lemma_first_match_found(env.downstream@, tag);
    lemma_first_match_found(env.upstream@, tag);
}

/// Law: an isolated stage — no local token, no neighbors, no externally
/// supplied context — falls through to self-creation: discovery still
/// yields a usable context, the fresh one.
pub proof fn lemma_isolated_stage_self_creates(
    stage: StageState,
    env: StageEnv,
    tag: Seq<char>,
    fresh_id: u64,
)
    requires
        !opt_matches(stage.token, tag),
        env.downstream@.len() == 0,
        env.upstream@.len() == 0,
        env.broadcast is None,
    ensures
        spec_discover(stage, env, tag, fresh_id) == (fresh_id, DiscoverySource::SelfCreated),
{
}

} // verus!
