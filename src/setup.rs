use vstd::prelude::*;

use crate::config::{parameter_plan, plan_of, EncoderParams, ParamSetting, MAX_CHANNELS, MAX_MODULES};
use crate::error::{EncoderError, ENGINE_OK};

verus! {

/// Where the construction of a session stands.
#[derive(Debug, Clone, Copy, PartialEq, Eq, Structural)]
pub enum SetupPhase {
    /// The engine handle is not allocated yet.
    Opening,
    /// The handle is open; the setting at `index` of the plan is next.
    Configuring { index: usize },
    /// Every setting was applied; the commit call is next.
    Committing,
    /// Terminal: the session is configured and committed; data calls may follow.
    Ready,
    /// A call after open failed with `code`: the handle is to be released.
    Releasing { code: u32 },
    /// Terminal: construction failed with `code`, and no handle is held.
    Failed { code: u32 },
}

/// What the driver of the construction does next.
pub enum SetupAction {
    /// Allocate the engine handle.
    Open { max_modules: u32, max_channels: u32 },
    /// Set one parameter.
    SetParam(ParamSetting),
    /// Make the commit call with null buffers.
    Commit,
    /// Release the engine handle; its status is not looked at.
    Release,
    /// The session is ready.
    Finish,
    /// Construction failed with this error.
    Abort(EncoderError),
}

/// The mathematical state of a construction.
pub struct SetupView {
    pub plan: Seq<ParamSetting>,
    pub phase: SetupPhase,
}

/// The state before any engine call.
pub open spec fn setup_start(p: EncoderParams) -> SetupView {
    SetupView { plan: plan_of(p), phase: SetupPhase::Opening }
}

/// What is done next in state `s`.
pub open spec fn action_of(s: SetupView) -> SetupAction {
    match s.phase {
        SetupPhase::Opening => SetupAction::Open { max_modules: MAX_MODULES, max_channels: MAX_CHANNELS },
        SetupPhase::Configuring { index } => SetupAction::SetParam(s.plan[index as int]),
        SetupPhase::Committing => SetupAction::Commit,
        SetupPhase::Ready => SetupAction::Finish,
        SetupPhase::Releasing { code } => SetupAction::Release,
        SetupPhase::Failed { code } => SetupAction::Abort(EncoderError::FdkAac(code)),
    }
}

/// The state after the engine answered the current call with `code`.
/// Terminal states stay as they are.
pub open spec fn after_result(s: SetupView, code: u32) -> SetupView {
    let phase = match s.phase {
        SetupPhase::Opening => if code == ENGINE_OK {
            if s.plan.len() > 0 {
                SetupPhase::Configuring { index: 0 }
            } else {
                SetupPhase::Committing
            }
        } else {
            SetupPhase::Failed { code }
        },
        SetupPhase::Configuring { index } => if code != ENGINE_OK {
            SetupPhase::Releasing { code }
        } else if index + 1 < s.plan.len() {
            SetupPhase::Configuring { index: (index + 1) as usize }
        } else {
            SetupPhase::Committing
        },
        SetupPhase::Committing => if code == ENGINE_OK {
            SetupPhase::Ready
        } else {
            SetupPhase::Releasing { code }
        },
        SetupPhase::Releasing { code: first } => SetupPhase::Failed { code: first },
        other => other,
    };
    SetupView { phase, ..s }
}

impl SetupView {
    pub open spec fn wf(self) -> bool {
        &&& self.plan.len() <= usize::MAX
        &&& self.phase matches SetupPhase::Configuring { index } ==> index < self.plan.len()
    }

    pub open spec fn is_terminal(self) -> bool {
        self.phase is Ready || self.phase is Failed
    }
}

/// The construction of a session: open the handle, apply each setting of the
/// plan, commit; release the handle when any call after open fails.
pub struct Setup {
    plan: Vec<ParamSetting>,
    phase: SetupPhase,
}

impl View for Setup {
    type V = SetupView;

    closed spec fn view(&self) -> SetupView {
        SetupView { plan: self.plan@, phase: self.phase }
    }
}

impl Setup {
    pub fn new(params: &EncoderParams) -> (r: Setup)
        ensures
            r@ == setup_start(*params),
            r@.wf(),
    {
        Setup { plan: parameter_plan(params), phase: SetupPhase::Opening }
    }

    pub fn phase(&self) -> (r: SetupPhase)
        ensures
            r == self@.phase,
    {
        self.phase
    }

    /// The call to make next, or the outcome once terminal.
    pub fn next_action(&self) -> (r: SetupAction)
        requires
            self@.wf(),
        ensures
            r == action_of(self@),
    {
        match self.phase {
            SetupPhase::Opening => SetupAction::Open { max_modules: MAX_MODULES, max_channels: MAX_CHANNELS },
            SetupPhase::Configuring { index } => SetupAction::SetParam(self.plan[index]),
            SetupPhase::Committing => SetupAction::Commit,
            SetupPhase::Ready => SetupAction::Finish,
            SetupPhase::Releasing { code } => SetupAction::Release,
            SetupPhase::Failed { code } => SetupAction::Abort(EncoderError::FdkAac(code)),
        }
    }

    /// Records the status code of the call that `next_action` asked for.
    pub fn on_result(&mut self, code: u32)
        requires
            old(self)@.wf(),
            !old(self)@.is_terminal(),
        ensures
            final(self)@ == after_result(old(self)@, code),
            final(self)@.wf(),
    {
        let next = match self.phase {
            SetupPhase::Opening => if code == ENGINE_OK {
                if self.plan.len() > 0 {
                    SetupPhase::Configuring { index: 0 }
                } else {
                    SetupPhase::Committing
                }
            } else {
                SetupPhase::Failed { code }
            },
            SetupPhase::Configuring { index } => if code != ENGINE_OK {
                SetupPhase::Releasing { code }
            } else if index + 1 < self.plan.len() {
                SetupPhase::Configuring { index: index + 1 }
            } else {
                SetupPhase::Committing
            },
            SetupPhase::Committing => if code == ENGINE_OK {
                SetupPhase::Ready
            } else {
                SetupPhase::Releasing { code }
            },
            SetupPhase::Releasing { code: first } => SetupPhase::Failed { code: first },
            other => other,
        };
        self.phase = next;
    }
}

/// `n` status codes that all report success.
pub open spec fn ok_codes(n: nat) -> Seq<u32> {
    Seq::new(n, |i: int| ENGINE_OK)
}

/// The state after the engine answered successive calls with `codes`.
pub open spec fn run(s: SetupView, codes: Seq<u32>) -> SetupView
    decreases codes.len(),
{
    if codes.len() == 0 {
        s
    } else {
        after_result(run(s, codes.drop_last()), codes.last())
    }
}

/// How many times the handle is released while the engine answers `codes`.
pub open spec fn releases(s: SetupView, codes: Seq<u32>) -> nat
    decreases codes.len(),
{
    if codes.len() == 0 {
        0
    } else {
        releases(s, codes.drop_last()) + if action_of(run(s, codes.drop_last())) is Release {
            1nat
        } else {
            0nat
        }
    }
}

proof fn lemma_ok_prefix(p: EncoderParams, j: nat)
    requires
        j <= plan_of(p).len() + 2,
    ensures
        releases(setup_start(p), ok_codes(j)) == 0,
        j == 0 ==> run(setup_start(p), ok_codes(j)).phase == SetupPhase::Opening,
        0 < j <= plan_of(p).len() ==> run(setup_start(p), ok_codes(j)).phase
            == (SetupPhase::Configuring { index: (j - 1) as usize }),
        j == plan_of(p).len() + 1 ==> run(setup_start(p), ok_codes(j)).phase == SetupPhase::Committing,
        j == plan_of(p).len() + 2 ==> run(setup_start(p), ok_codes(j)).phase == SetupPhase::Ready,
        run(setup_start(p), ok_codes(j)).plan == plan_of(p),
    decreases j,
{
    if j > 0 {
        assert(ok_codes(j).drop_last() =~= ok_codes((j - 1) as nat));
        lemma_ok_prefix(p, (j - 1) as nat);
    }
}

/// When every call succeeds, the commit call comes right after the last
/// setting of the plan, the session is then ready, and no release happened.
pub proof fn lemma_commit_after_all_settings(p: EncoderParams)
    ensures
        action_of(run(setup_start(p), ok_codes(plan_of(p).len() + 1))) is Commit,
        run(setup_start(p), ok_codes(plan_of(p).len() + 2)).phase == SetupPhase::Ready,
        releases(setup_start(p), ok_codes(plan_of(p).len() + 2)) == 0,
{
    lemma_ok_prefix(p, plan_of(p).len() + 1);
    lemma_ok_prefix(p, plan_of(p).len() + 2);
}

proof fn lemma_after_release(s: SetupView, prefix: Seq<u32>, rest: Seq<u32>, code: u32)
    requires
        run(s, prefix).phase == (SetupPhase::Releasing { code }),
        releases(s, prefix) == 0,
        rest.len() >= 1,
    ensures
        run(s, prefix + rest).phase == (SetupPhase::Failed { code }),
        releases(s, prefix + rest) == 1,
    decreases rest.len(),
{
    if rest.len() == 1 {
        assert((prefix + rest).drop_last() =~= prefix);
    } else {
        assert((prefix + rest).drop_last() =~= prefix + rest.drop_last());
        lemma_after_release(s, prefix, rest.drop_last(), code);
    }
}

/// When the engine refuses the setting at `k` of the plan, whatever it
/// answers afterwards, the handle is released exactly once and construction
/// ends failed with the refusing code.
pub proof fn lemma_failed_setting_releases_once(p: EncoderParams, k: nat, code: u32, rest: Seq<u32>)
    requires
        k < plan_of(p).len(),
        code != ENGINE_OK,
        rest.len() >= 1,
    ensures
        releases(setup_start(p), ok_codes(k + 1).push(code) + rest) == 1,
        run(setup_start(p), ok_codes(k + 1).push(code) + rest).phase == (SetupPhase::Failed { code }),
{
    let prefix = ok_codes(k + 1).push(code);
    lemma_ok_prefix(p, k + 1);
    assert(prefix.drop_last() =~= ok_codes(k + 1));
    lemma_after_release(setup_start(p), prefix, rest, code);
}

} // verus!
