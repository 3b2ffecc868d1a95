//! The `Context` struct, the primary means through which handler code
//! interacts with the platform, and the per-invocation scope that carries
//! it through one dispatch.

use vstd::prelude::*;

use crate::model::interaction::Invocation;
use crate::text::strs_view;

verus! {

/// The primary context of a command: the decoded invocation being handled
/// and the replies produced for it so far.
#[derive(Debug)]
pub struct Context {
    invocation: Invocation,
    replies: Vec<String>,
}

impl Context {
    /// The decoded invocation this context is about.
    pub closed spec fn invocation_spec(self) -> Invocation {
        self.invocation
    }

    /// The replies recorded so far, oldest first.
    pub closed spec fn replies_spec(self) -> Seq<Seq<char>> {
        strs_view(self.replies@)
    }

    /// A fresh context for one decoded invocation, with no replies yet.
    pub fn new(invocation: Invocation) -> (c: Context)
        ensures
            c.invocation_spec() == invocation,
            c.replies_spec() == Seq::<Seq<char>>::empty(),
    {
        let c = Context { invocation, replies: Vec::new() };
        proof {
            assert(c.replies_spec() =~= Seq::<Seq<char>>::empty());
        }
        c
    }

    /// Reply to the interaction with the given message.  The content is
    /// recorded on this context; transmitting it is the network
    /// collaborator's concern.
    pub fn reply(&mut self, content: &str)
        ensures
            final(self).invocation_spec() == old(self).invocation_spec(),
            final(self).replies_spec() == old(self).replies_spec().push(content@),
    {
        let ghost before = strs_view(self.replies@);
        self.replies.push(String::from_str(content));
        proof {
            assert(strs_view(self.replies@) =~= before.push(content@));
        }
    }

    /// Read access to the decoded invocation.
    pub fn invocation(&self) -> (inv: &Invocation)
        ensures
            *inv == self.invocation_spec(),
    {
        &self.invocation
    }

    /// The replies recorded so far.
    pub fn replies(&self) -> (r: &Vec<String>)
        ensures
            strs_view(r@) == self.replies_spec(),
    {
        &self.replies
    }

    /// Consumes the context, yielding the replies it recorded.
    pub fn into_replies(self) -> (r: Vec<String>)
        ensures
            strs_view(r@) == self.replies_spec(),
    {
        self.replies
    }
}

/// The per-invocation scope: it owns the ambient [`Context`] for the
/// dynamic extent of one dispatch.
///
/// The scope is threaded explicitly through evaluation rather than held in
/// an implicit process-wide cell; explicit passing rules out every "context
/// read outside its scope" fault by construction, and gives each concurrent
/// invocation its own scope with nothing shared.
pub struct Scope {
    current: Option<Context>,
}

impl Scope {
    /// Whether a context is currently installed.
    pub closed spec fn entered(self) -> bool {
        self.current is Some
    }

    /// The installed context.
    pub closed spec fn context_spec(self) -> Context
        recommends
            self.entered(),
    {
        self.current->0
    }

    /// The ambient invocation, as seen through the installed context.
    pub open spec fn inv_spec(self) -> Invocation
        recommends
            self.entered(),
    {
        self.context_spec().invocation_spec()
    }

    /// The replies recorded through the installed context so far.
    pub open spec fn reps_spec(self) -> Seq<Seq<char>>
        recommends
            self.entered(),
    {
        self.context_spec().replies_spec()
    }

    /// Read access to the ambient invocation.
    pub fn invocation(&self) -> (inv: &Invocation)
        requires
            self.entered(),
        ensures
            *inv == self.inv_spec(),
    {
        match &self.current {
            Some(ctx) => ctx.invocation(),
            None => vstd::pervasive::unreached(),
        }
    }

    /// Reply through the ambient context.
    pub fn reply(&mut self, content: &str)
        requires
            old(self).entered(),
        ensures
            final(self).entered(),
            final(self).inv_spec() == old(self).inv_spec(),
            final(self).reps_spec() == old(self).reps_spec().push(content@),
    {
        let ctx = self.with_mut();
        ctx.reply(content);
    }

    /// A scope with nothing entered.
    pub fn new() -> (s: Scope)
        ensures
            !s.entered(),
    {
        Scope { current: None }
    }

    /// Installs `ctx` as the ambient context for the extent of this scope,
    /// until [`Scope::exit`] takes it back out.
    pub fn enter(&mut self, ctx: Context)
        requires
            !old(self).entered(),
        ensures
            final(self).entered(),
            final(self).context_spec() == ctx,
    {
        self.current = Some(ctx);
    }

    /// Uninstalls and returns the ambient context, leaving the scope as it
    /// was before [`Scope::enter`].
    pub fn exit(&mut self) -> (ctx: Context)
        requires
            old(self).entered(),
        ensures
            !final(self).entered(),
            ctx == old(self).context_spec(),
    {
        let prev = self.current.take();
        match prev {
            Some(ctx) => ctx,
            None => vstd::pervasive::unreached(),
        }
    }

    /// Whether a context is currently entered; filters assert this before
    /// reading the ambient context.
    pub fn is_entered(&self) -> (b: bool)
        ensures
            b == self.entered(),
    {
        match &self.current {
            Some(_) => true,
            None => false,
        }
    }

    /// Exclusive mutable access to the ambient context.  Reading the
    /// context without an entered scope is a usage error, which the
    /// precondition rules out.
    pub fn with_mut(&mut self) -> (ctx: &mut Context)
        requires
            old(self).entered(),
        ensures
            *ctx == old(self).context_spec(),
            final(self).entered(),
            final(self).context_spec() == *final(ctx),
    {
        match &mut self.current {
            Some(ctx) => ctx,
            None => vstd::pervasive::unreached(),
        }
    }
}

} // verus!
