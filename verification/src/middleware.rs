//! The middleware pipeline: an ordered chain of request-processing stages
//! sharing one mutable per-request context, with short-circuit-on-error
//! semantics — the first failing stage decides the outcome and the stages
//! after it never run.

use vstd::prelude::*;
use vstd::string::StringExecFns;
use crate::auth::AuthPolicy;
use crate::auth::JwtToken;
use crate::Error;
use std::io::Write;

verus! {

/// The per-request mutable state threaded through the pipeline: created
/// fresh per request, written by stages (principally `token`), discarded
/// afterwards. The context is the only inter-stage communication channel.
pub struct MiddlewareContext {
    /// The verified identity, once (and if) authentication has produced one.
    pub token: Option<JwtToken>,
    /// The requested path, read-only after creation.
    pub path: String,
    /// The requested method name, read-only after creation.
    pub method: String,
}

/// One pipeline stage. A stage is a function of the context: the two spec
/// functions say what it leaves in the context and what verdict it returns,
/// and `handle` is bound to them exactly.
pub trait Middleware {
    /// The context this stage leaves behind, given the one it received.
    spec fn spec_ctx_after(&self, context: MiddlewareContext) -> MiddlewareContext;

    /// The verdict this stage returns, given the context it received.
    spec fn spec_result(&self, context: MiddlewareContext) -> Result<(), Error>;

    /// Processes the request once; no retries, no other side channel.
    fn handle(&self, context: &mut MiddlewareContext) -> (r: Result<(), Error>)
        ensures
            *final(context) == self.spec_ctx_after(*old(context)),
            r == self.spec_result(*old(context)),
    ;
}

/// Builds the one line the logging stage emits for a request.
pub fn log_line(method: &str, path: &str) -> (line: String)
    ensures
        line@ == "Request: "@ + method@ + " "@ + path@,
{
    let mut line = "Request: ".to_owned();
    line.append(method);
    line.append(" ");
    line.append(path);
    proof {
        assert(line@ =~= "Request: "@ + method@ + " "@ + path@);
    }
    line
}

/// Relies on the `std::io::Write` impl of `std::io::Stdout`: prints one line
/// to standard output. Nothing is promised of the write; the emitted text is
/// fixed by the caller.
#[verifier::external_body]
fn emit_line(line: &str) {
    let _ = writeln!(std::io::stdout(), "{}", line);
}

/// A stage that records one line per request — method and path — and always
/// succeeds.
#[derive(Clone)]
pub struct LoggingMiddleware;

impl Middleware for LoggingMiddleware {
    open spec fn spec_ctx_after(&self, context: MiddlewareContext) -> MiddlewareContext {
        context
    }

    open spec fn spec_result(&self, context: MiddlewareContext) -> Result<(), Error> {
        Ok(())
    }

    fn handle(&self, context: &mut MiddlewareContext) -> (r: Result<(), Error>) {
        let line = log_line(context.method.as_str(), context.path.as_str());
        emit_line(line.as_str());
        Ok(())
    }
}

/// A placeholder for response-header injection; this layer has no response
/// model, so the stage does nothing and always succeeds.
#[derive(Clone)]
pub struct CorsMiddleware;

impl CorsMiddleware {
    /// A fresh CORS stage.
    pub fn default() -> CorsMiddleware {
        CorsMiddleware
    }
}

impl Middleware for CorsMiddleware {
    open spec fn spec_ctx_after(&self, context: MiddlewareContext) -> MiddlewareContext {
        context
    }

    open spec fn spec_result(&self, context: MiddlewareContext) -> Result<(), Error> {
        Ok(())
    }

    fn handle(&self, context: &mut MiddlewareContext) -> (r: Result<(), Error>) {
        Ok(())
    }
}

/// The authorization stage: evaluates a route's policy against the current
/// context. An empty policy expression means "public route" and always
/// passes, even without an identity; a non-empty policy demands an identity
/// and fails with `Unauthorized` when none is present — the conditions are
/// never even parsed then. When an identity is present, presence alone
/// suffices: the reference identity grants every claim query.
#[derive(Clone)]
pub struct AuthMiddleware {
    policy: AuthPolicy,
}

impl AuthMiddleware {
    /// The policy this stage enforces.
    pub closed spec fn spec_policy(&self) -> AuthPolicy {
        self.policy
    }

    /// A stage enforcing the given policy.
    pub fn new(policy: AuthPolicy) -> (m: AuthMiddleware)
        ensures
            m.spec_policy() == policy,
    {
        AuthMiddleware { policy }
    }
}

impl Middleware for AuthMiddleware {
    open spec fn spec_ctx_after(&self, context: MiddlewareContext) -> MiddlewareContext {
        context
    }

    open spec fn spec_result(&self, context: MiddlewareContext) -> Result<(), Error> {
        if self.spec_policy().policy_expr@.len() > 0 && context.token is None {
            Err(Error::Unauthorized)
        } else {
            Ok(())
        }
    }

    fn handle(&self, context: &mut MiddlewareContext) -> (r: Result<(), Error>) {
        if !self.policy.policy_expr.as_str().is_empty() && context.token.is_none() {
            return Err(Error::Unauthorized);
        }
        Ok(())
    }
}

/// The stages a chain can hold, as one closed type so that the pipeline's
/// behaviour is a function of its stage list.
pub enum MiddlewareStage {
    /// A [`LoggingMiddleware`].
    Logging(LoggingMiddleware),
    /// A [`CorsMiddleware`].
    Cors(CorsMiddleware),
    /// An [`AuthMiddleware`].
    Authorization(AuthMiddleware),
}

impl Middleware for MiddlewareStage {
    open spec fn spec_ctx_after(&self, context: MiddlewareContext) -> MiddlewareContext {
        match self {
            MiddlewareStage::Logging(m) => m.spec_ctx_after(context),
            MiddlewareStage::Cors(m) => m.spec_ctx_after(context),
            MiddlewareStage::Authorization(m) => m.spec_ctx_after(context),
        }
    }

    open spec fn spec_result(&self, context: MiddlewareContext) -> Result<(), Error> {
        match self {
            MiddlewareStage::Logging(m) => m.spec_result(context),
            MiddlewareStage::Cors(m) => m.spec_result(context),
            MiddlewareStage::Authorization(m) => m.spec_result(context),
        }
    }

    fn handle(&self, context: &mut MiddlewareContext) -> (r: Result<(), Error>) {
        match self {
            MiddlewareStage::Logging(m) => m.handle(context),
            MiddlewareStage::Cors(m) => m.handle(context),
            MiddlewareStage::Authorization(m) => m.handle(context),
        }
    }
}

/// What running `stages` in order on `context` produces: the final context
/// and the pipeline verdict. The first stage to fail ends the run with its
/// error; the stages after it are not consulted.
pub open spec fn chain_run(stages: Seq<MiddlewareStage>, context: MiddlewareContext) -> (
    MiddlewareContext,
    Result<(), Error>,
)
    decreases stages.len(),
{
    if stages.len() == 0 {
        (context, Ok(()))
    } else {
        let after = stages[0].spec_ctx_after(context);
        if stages[0].spec_result(context) is Err {
            (after, stages[0].spec_result(context))
        } else {
            chain_run(stages.drop_first(), after)
        }
    }
}

/// An ordered sequence of stages, built once and immutable afterwards;
/// `execute` only ever mutates the per-call context, never the stage list.
pub struct MiddlewareChain {
    /// The stages, in registration order.
    pub middlewares: Vec<MiddlewareStage>,
}

impl MiddlewareChain {
    /// An empty chain: it accepts every request.
    pub fn new() -> (c: MiddlewareChain)
        ensures
            c.middlewares@ == Seq::<MiddlewareStage>::empty(),
    {
        MiddlewareChain { middlewares: Vec::new() }
    }

    /// Appends one stage, preserving registration order; chainable.
    pub fn add_middleware(self, middleware: MiddlewareStage) -> (c: MiddlewareChain)
        ensures
            c.middlewares@ == self.middlewares@.push(middleware),
    {
        let mut c = self;
        c.middlewares.push(middleware);
        c
    }

    /// Runs the stages strictly in registration order on the shared context.
    /// The first stage to return an error short-circuits: the remaining
    /// stages are skipped and that error is the pipeline's result. Context
    /// writes already applied by earlier, successful stages remain.
    pub fn execute(&self, context: &mut MiddlewareContext) -> (r: Result<(), Error>)
        ensures
            *final(context) == chain_run(self.middlewares@, *old(context)).0,
            r == chain_run(self.middlewares@, *old(context)).1,
    {
        proof {
            assert(self.middlewares@.skip(0) =~= self.middlewares@);
        }
        let mut idx: usize = 0;
        while idx < self.middlewares.len()
            invariant
                idx <= self.middlewares@.len(),
                chain_run(self.middlewares@, *old(context)) == chain_run(
                    self.middlewares@.skip(idx as int),
                    *context,
                ),
            decreases self.middlewares@.len() - idx,
        {
            let stage = &self.middlewares[idx];
            proof {
                assert(self.middlewares@.skip(idx as int).drop_first() =~= self.middlewares@.skip(
                    idx as int + 1,
                ));
            }
            let r = stage.handle(context);
            if let Err(e) = r {
                return Err(e);
            }
            idx += 1;
        }
        Ok(())
    }
}

impl Default for MiddlewareChain {
    /// Same as [`MiddlewareChain::new`]: an empty chain.
    fn default() -> (c: MiddlewareChain)
        ensures
            c.middlewares@ == Seq::<MiddlewareStage>::empty(),
    {
        MiddlewareChain::new()
    }
}

/// None of the built-in stages writes the context: a chain of them returns
/// the context exactly as it received it.
pub proof fn lemma_stages_preserve_context(stages: Seq<MiddlewareStage>, context: MiddlewareContext)
    ensures
        chain_run(stages, context).0 == context,
    decreases stages.len(),
{
    if stages.len() > 0 {
        assert(stages[0].spec_ctx_after(context) == context);
        lemma_stages_preserve_context(stages.drop_first(), context);
    }
}

/// Short-circuiting, as a law: when the stages before `i` all succeed and
/// stage `i` fails, the pipeline's verdict is exactly stage `i`'s error, and
/// the whole run equals the run of the chain cut off right after stage `i` —
/// the stages behind it never run. (Stating every stage's verdict against the
/// one starting context is sound here because no built-in stage writes the
/// context.)
pub proof fn lemma_short_circuit(stages: Seq<MiddlewareStage>, context: MiddlewareContext, i: int)
    requires
        0 <= i < stages.len(),
        forall|j: int| 0 <= j < i ==> #[trigger] stages[j].spec_result(context) is Ok,
        stages[i].spec_result(context) is Err,
    ensures
        chain_run(stages, context).1 == stages[i].spec_result(context),
        chain_run(stages, context) == chain_run(stages.take(i + 1), context),
    decreases i,
{
    assert(stages[0].spec_ctx_after(context) == context);
    let cut = stages.take(i + 1);
    if i == 0 {
        assert(chain_run(cut, context).1 == cut[0].spec_result(context));
    } else {
        let d = stages.drop_first();
        assert(forall|j: int| 0 <= j < i - 1 ==> #[trigger] d[j].spec_result(context) is Ok);
        lemma_short_circuit(d, context, i - 1);
        assert(cut.drop_first() =~= d.take(i));
        assert(chain_run(cut, context) == chain_run(d.take(i), context));
    }
}

} // verus!
