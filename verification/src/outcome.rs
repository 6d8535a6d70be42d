//! What the steps of a session come to.

use vstd::prelude::*;

use crate::report::{EffectView, LogMessageView, SessionMetrics};
use crate::session::HttpView;

verus! {

/// The session, the byte counts and the effects after a step, and its result.
#[verifier::ext_equal]
pub struct Outcome<Front, Back, Buf, R> {
    pub session: HttpView<Front, Back, Buf>,
    pub metrics: SessionMetrics,
    pub effects: Seq<EffectView>,
    pub result: R,
}

impl<Front, Back, Buf, R> Outcome<Front, Back, Buf, R> {
    /// A step that left the session, the byte counts and the effects like
    /// this, where the effects were `before`, and gave `result`, came to
    /// exactly this outcome.
    pub open spec fn reached(
        self,
        session: HttpView<Front, Back, Buf>,
        metrics: SessionMetrics,
        before: Seq<EffectView>,
        effects: Seq<EffectView>,
        result: R,
    ) -> bool {
        &&& session =~= self.session
        &&& metrics == self.metrics
        &&& effects =~= before + self.effects
        &&& result == self.result
    }

    /// The same step, with `effects` ahead of its own.
    pub open spec fn preceded_by(self, effects: Seq<EffectView>) -> Self {
        Outcome { effects: effects + self.effects, ..self }
    }

    /// The same step, with `effects` behind its own.
    pub open spec fn followed_by(self, effects: Seq<EffectView>) -> Self {
        Outcome { effects: self.effects + effects, ..self }
    }
}

impl<Front, Back, Buf> HttpView<Front, Back, Buf> {
    /// A step that ends here, without effects.
    pub open spec fn giving<R>(self, metrics: SessionMetrics, result: R) -> Outcome<
        Front,
        Back,
        Buf,
        R,
    > {
        Outcome { session: self, metrics, effects: Seq::empty(), result }
    }

    /// A step that fails: the session logs the failure and is left idle.
    pub open spec fn failing<R>(
        self,
        message: LogMessageView,
        metrics: SessionMetrics,
        result: R,
    ) -> Outcome<Front, Back, Buf, R> {
        Outcome {
            session: self.idle(),
            metrics,
            effects: self.error_effects(message, metrics),
            result,
        }
    }
}

} // verus!
