//! Failures of dispatched operations, with the facts a caller needs to go on
//! safely.

use crate::contracts::ComputerUseTargetScope;
use crate::driver::ActionCompletion;
use crate::errors::{
    ComputerUseCompletionState, ComputerUseError, ComputerUseErrorCode, ComputerUseErrorDetails,
    ComputerUseErrorPhase, ComputerUseInputState,
};
#[allow(unused_imports)]
use crate::errors::{is_detailed_error, is_plain_error, no_details};
use crate::text::{join2, join3, remove_all};
#[allow(unused_imports)]
use crate::text::removed;
use crate::window_target::WindowTarget;
use vstd::prelude::*;
use vstd::string::*;

verus! {

/// Nothing left the host, and the session goes on.
pub open spec fn pre_dispatch_details(fresh: bool) -> ComputerUseErrorDetails {
    ComputerUseErrorDetails {
        phase: Some(ComputerUseErrorPhase::PreDispatch),
        action_attempted: Some(false),
        input_sent: Some(ComputerUseInputState::NotSent),
        completion: Some(ComputerUseCompletionState::Known),
        local_session_invalidated: Some(false),
        session_remains_active: Some(true),
        automatic_input: Some(false),
        blind_retry: Some(false),
        fresh_observation_required: Some(fresh),
        ..no_details()
    }
}

/// The action went out and ended; its effect has to be observed anew.
pub open spec fn known_dispatch_details() -> ComputerUseErrorDetails {
    ComputerUseErrorDetails {
        phase: Some(ComputerUseErrorPhase::ActionDispatch),
        action_attempted: Some(true),
        input_sent: Some(ComputerUseInputState::Unknown),
        completion: Some(ComputerUseCompletionState::Known),
        local_session_invalidated: Some(false),
        session_remains_active: Some(true),
        automatic_input: Some(false),
        blind_retry: Some(false),
        fresh_observation_required: Some(true),
        ..no_details()
    }
}

/// The action went out and nobody knows whether it ended: the session is over.
pub open spec fn unknown_dispatch_details() -> ComputerUseErrorDetails {
    ComputerUseErrorDetails {
        phase: Some(ComputerUseErrorPhase::ActionDispatch),
        action_attempted: Some(true),
        input_sent: Some(ComputerUseInputState::Unknown),
        completion: Some(ComputerUseCompletionState::Unknown),
        local_session_invalidated: Some(true),
        automatic_input: Some(false),
        blind_retry: Some(false),
        fresh_observation_required: Some(true),
        ..no_details()
    }
}

/// A local mutation was attempted and failed.
pub open spec fn local_mutation_details() -> ComputerUseErrorDetails {
    ComputerUseErrorDetails {
        phase: Some(ComputerUseErrorPhase::LocalMutationDispatch),
        effect_unknown: Some(true),
        ..known_dispatch_details()
    }
}

/// An activation failed to reach or to keep its target.
pub open spec fn activation_validation_details() -> ComputerUseErrorDetails {
    ComputerUseErrorDetails {
        phase: Some(ComputerUseErrorPhase::ActivationDispatch),
        focus_mutation_attempted: Some(true),
        action_attempted: Some(false),
        input_sent: Some(ComputerUseInputState::NotSent),
        completion: Some(ComputerUseCompletionState::Known),
        effect_unknown: Some(false),
        automatic_input: Some(false),
        blind_retry: Some(false),
        fresh_observation_required: Some(true),
        ..no_details()
    }
}

/// An activation was attempted and failed, and the session goes on.
pub open spec fn activation_attempt_details() -> ComputerUseErrorDetails {
    ComputerUseErrorDetails {
        local_session_invalidated: Some(false),
        session_remains_active: Some(true),
        ..activation_validation_details()
    }
}

/// The window refused to come to the front; background delivery still works.
pub open spec fn activation_refused_details(mode: String) -> ComputerUseErrorDetails {
    ComputerUseErrorDetails {
        phase: Some(ComputerUseErrorPhase::ActivationDispatch),
        focus_mutation_attempted: Some(true),
        action_attempted: Some(false),
        input_sent: Some(ComputerUseInputState::NotSent),
        completion: Some(ComputerUseCompletionState::Known),
        automatic_input: Some(false),
        blind_retry: Some(false),
        fresh_observation_required: Some(true),
        background_delivery_viable: Some(true),
        suggested_delivery_mode: Some(mode),
        ..no_details()
    }
}

/// The upstream session has to be refreshed before evidence is used.
pub open spec fn refresh_required_details() -> ComputerUseErrorDetails {
    ComputerUseErrorDetails {
        exact_target_revalidation_required: Some(true),
        ..pre_dispatch_details(true)
    }
}

/// Nobody knows whether the refresh took place.
pub open spec fn refresh_unknown_details() -> ComputerUseErrorDetails {
    ComputerUseErrorDetails {
        timed_out: Some(true),
        phase: Some(ComputerUseErrorPhase::UpstreamSessionRefresh),
        action_attempted: Some(false),
        input_sent: Some(ComputerUseInputState::NotSent),
        completion: Some(ComputerUseCompletionState::Unknown),
        local_session_invalidated: Some(false),
        session_remains_active: Some(true),
        automatic_input: Some(false),
        blind_retry: Some(false),
        fresh_observation_required: Some(true),
        exact_target_revalidation_required: Some(true),
        ..no_details()
    }
}

/// Reading evidence failed; nothing was sent.
pub open spec fn evidence_details(
    timed_out: Option<bool>,
    completion: Option<ComputerUseCompletionState>,
) -> ComputerUseErrorDetails {
    ComputerUseErrorDetails {
        timed_out,
        phase: Some(ComputerUseErrorPhase::EvidenceDispatch),
        action_attempted: Some(false),
        input_sent: Some(ComputerUseInputState::NotSent),
        completion,
        local_session_invalidated: Some(false),
        session_remains_active: Some(true),
        automatic_input: Some(false),
        blind_retry: Some(false),
        ..no_details()
    }
}

/// Another window of the same process holds the input.
pub open spec fn modal_details(suggested: ComputerUseTargetScope) -> ComputerUseErrorDetails {
    ComputerUseErrorDetails {
        phase: Some(ComputerUseErrorPhase::PreDispatch),
        action_attempted: Some(false),
        input_sent: Some(ComputerUseInputState::NotSent),
        automatic_rebind: Some(false),
        explicit_rebind_required: Some(true),
        suggested_target: Some(suggested),
        ..no_details()
    }
}

/// The failure with its code and message kept, and new details.
pub open spec fn restated(
    before: ComputerUseError,
    after: ComputerUseError,
    details: ComputerUseErrorDetails,
) -> bool {
    after.code == before.code && after.message == before.message && after.details == Some(details)
}

fn pre_dispatch_facts(fresh: bool) -> (r: ComputerUseErrorDetails)
    ensures
        r == pre_dispatch_details(fresh),
{
    let mut d = ComputerUseErrorDetails::default();
    d.phase = Some(ComputerUseErrorPhase::PreDispatch);
    d.action_attempted = Some(false);
    d.input_sent = Some(ComputerUseInputState::NotSent);
    d.completion = Some(ComputerUseCompletionState::Known);
    d.local_session_invalidated = Some(false);
    d.session_remains_active = Some(true);
    d.automatic_input = Some(false);
    d.blind_retry = Some(false);
    d.fresh_observation_required = Some(fresh);
    d
}

fn known_dispatch_facts() -> (r: ComputerUseErrorDetails)
    ensures
        r == known_dispatch_details(),
{
    let mut d = pre_dispatch_facts(true);
    d.phase = Some(ComputerUseErrorPhase::ActionDispatch);
    d.action_attempted = Some(true);
    d.input_sent = Some(ComputerUseInputState::Unknown);
    d
}

fn activation_validation_facts() -> (r: ComputerUseErrorDetails)
    ensures
        r == activation_validation_details(),
{
    let mut d = ComputerUseErrorDetails::default();
    d.phase = Some(ComputerUseErrorPhase::ActivationDispatch);
    d.focus_mutation_attempted = Some(true);
    d.action_attempted = Some(false);
    d.input_sent = Some(ComputerUseInputState::NotSent);
    d.completion = Some(ComputerUseCompletionState::Known);
    d.effect_unknown = Some(false);
    d.automatic_input = Some(false);
    d.blind_retry = Some(false);
    d.fresh_observation_required = Some(true);
    d
}

/// The failure of a call that never went out.
pub fn pre_dispatch_failure(error: ComputerUseError) -> (r: ComputerUseError)
    ensures
        restated(error, r, pre_dispatch_details(false)),
{
    error.with_details(pre_dispatch_facts(false))
}

/// The failure of a mutation that went out and is known to have ended.
pub fn mutation_known_failure(error: ComputerUseError) -> (r: ComputerUseError)
    ensures
        restated(error, r, known_dispatch_details()),
{
    error.with_details(known_dispatch_facts())
}

/// The failure of a mutation of which nobody knows whether it ended.
pub fn action_dispatch_completion_unknown(error: ComputerUseError) -> (r: ComputerUseError)
    ensures
        r.code == ComputerUseErrorCode::CompletionUnknown,
        r.message == error.message,
        r.details == Some(unknown_dispatch_details()),
{
    let mut d = known_dispatch_facts();
    d.completion = Some(ComputerUseCompletionState::Unknown);
    d.local_session_invalidated = Some(true);
    d.session_remains_active = None;
    ComputerUseError::owned(ComputerUseErrorCode::CompletionUnknown, error.message).with_details(d)
}

/// The failure of a local mutation that was attempted.
pub fn local_mutation_attempt_failure(error: ComputerUseError) -> (r: ComputerUseError)
    ensures
        restated(error, r, local_mutation_details()),
{
    let mut d = known_dispatch_facts();
    d.phase = Some(ComputerUseErrorPhase::LocalMutationDispatch);
    d.effect_unknown = Some(true);
    error.with_details(d)
}

/// The failure of an activation that was attempted.
pub fn local_activation_attempt_failure(error: ComputerUseError) -> (r: ComputerUseError)
    ensures
        restated(error, r, activation_attempt_details()),
{
    let mut d = activation_validation_facts();
    d.local_session_invalidated = Some(false);
    d.session_remains_active = Some(true);
    error.with_details(d)
}

/// An activation that left the target in the wrong state.
pub fn local_activation_validation_failure(code: ComputerUseErrorCode, message: &str) -> (r:
    ComputerUseError)
    ensures
        is_detailed_error(r, code, message@, activation_validation_details()),
{
    ComputerUseError::new(code, message).with_details(activation_validation_facts())
}

/// An activation after which the target is still not in front.
pub fn foreground_activation_refused(message: &str) -> (r: ComputerUseError)
    ensures
        r.code == ComputerUseErrorCode::ForegroundActivationRefused,
        r.message@ == message@,
        exists|mode: String|
            mode@ == "background"@ && r.details == Some(#[trigger] activation_refused_details(mode)),
{
    let mode = "background".to_owned();
    let ghost shown = mode;
    let mut d = activation_validation_facts();
    d.effect_unknown = None;
    d.background_delivery_viable = Some(true);
    d.suggested_delivery_mode = Some(mode);
    assert(d == activation_refused_details(shown));
    ComputerUseError::new(ComputerUseErrorCode::ForegroundActivationRefused, message).with_details(d)
}

/// Evidence may not be used before the upstream session is refreshed.
pub fn session_refresh_required() -> (r: ComputerUseError)
    ensures
        is_detailed_error(
            r,
            ComputerUseErrorCode::SessionRefreshRequired,
            "the upstream session requires a fresh exact-target refresh"@,
            refresh_required_details(),
        ),
{
    let mut d = pre_dispatch_facts(true);
    d.exact_target_revalidation_required = Some(true);
    ComputerUseError::new(
        ComputerUseErrorCode::SessionRefreshRequired,
        "the upstream session requires a fresh exact-target refresh",
    ).with_details(d)
}

/// A refresh that did not come back in time.
pub fn session_refresh_unknown(message: String) -> (r: ComputerUseError)
    ensures
        is_detailed_error(
            r,
            ComputerUseErrorCode::CompletionUnknown,
            message@,
            refresh_unknown_details(),
        ),
{
    let mut d = pre_dispatch_facts(true);
    d.timed_out = Some(true);
    d.phase = Some(ComputerUseErrorPhase::UpstreamSessionRefresh);
    d.completion = Some(ComputerUseCompletionState::Unknown);
    d.exact_target_revalidation_required = Some(true);
    ComputerUseError::owned(ComputerUseErrorCode::CompletionUnknown, message).with_details(d)
}

/// What is known of an interrupted read.
pub open spec fn evidence_completion(completion: ActionCompletion) -> ComputerUseCompletionState {
    match completion {
        ActionCompletion::NotStarted => ComputerUseCompletionState::Known,
        ActionCompletion::Completed => ComputerUseCompletionState::Known,
        ActionCompletion::Unknown => ComputerUseCompletionState::Unknown,
    }
}

/// A failed read of evidence.
pub fn evidence_failure(
    error: ComputerUseError,
    timed_out: Option<bool>,
    completion: Option<ComputerUseCompletionState>,
) -> (r: ComputerUseError)
    ensures
        restated(error, r, evidence_details(timed_out, completion)),
{
    let mut d = pre_dispatch_facts(true);
    d.timed_out = timed_out;
    d.phase = Some(ComputerUseErrorPhase::EvidenceDispatch);
    d.completion = completion;
    d.fresh_observation_required = None;
    error.with_details(d)
}

/// The window is the one the failure suggests to bind instead.
pub open spec fn suggests(scope: ComputerUseTargetScope, window: WindowTarget) -> bool {
    &&& scope.process_id == Some(window.pid)
    &&& scope.window_handle == Some(window.window_id)
    &&& scope.window_title == Some(window.title)
}

/// An owned window took the input over.
pub fn target_modal_changed(modal: WindowTarget) -> (r: ComputerUseError)
    ensures
        r.code == ComputerUseErrorCode::TargetModalChanged,
        r.message@ == "a same-process owned window has taken over input"@,
        exists|scope: ComputerUseTargetScope|
            suggests(scope, modal) && r.details == Some(#[trigger] modal_details(scope)),
{
    let scope = ComputerUseTargetScope {
        process_id: Some(modal.pid),
        window_handle: Some(modal.window_id),
        window_title: Some(modal.title),
    };
    let ghost shown = scope;
    let mut d = ComputerUseErrorDetails::default();
    d.phase = Some(ComputerUseErrorPhase::PreDispatch);
    d.action_attempted = Some(false);
    d.input_sent = Some(ComputerUseInputState::NotSent);
    d.automatic_rebind = Some(false);
    d.explicit_rebind_required = Some(true);
    d.suggested_target = Some(scope);
    assert(d == modal_details(shown));
    ComputerUseError::new(
        ComputerUseErrorCode::TargetModalChanged,
        "a same-process owned window has taken over input",
    ).with_details(d)
}

/// What the message of an activation of unknown completion adds.
pub open spec fn activation_unknown_suffix() -> Seq<char> {
    "; completion_unknown=true; automatic_input=false; blind_retry=false; fresh_observation_required=true"@
}

/// An activation that did not come back in time.
pub fn activation_completion_unknown(error: ComputerUseError) -> (r: ComputerUseError)
    ensures
        is_plain_error(
            r,
            ComputerUseErrorCode::CompletionUnknown,
            removed(error.message@, "; the window session was invalidated"@)
                + activation_unknown_suffix(),
        ),
{
    proof {
        reveal_strlit("; the window session was invalidated");
    }
    let detail = remove_all(error.message.as_str(), "; the window session was invalidated");
    ComputerUseError::owned(
        ComputerUseErrorCode::CompletionUnknown,
        join2(
            detail.as_str(),
            "; completion_unknown=true; automatic_input=false; blind_retry=false; fresh_observation_required=true",
        ),
    )
}

/// The message of a failure in a context.
pub open spec fn in_context(context: Seq<char>, reason: Seq<char>) -> Seq<char> {
    context + ": "@ + reason
}

/// An interrupted action, as an input failure.
pub fn interrupted(code: ComputerUseErrorCode, context: &str, reason: &str) -> (r: ComputerUseError)
    ensures
        is_plain_error(r, code, in_context(context@, reason@)),
{
    ComputerUseError::owned(code, join3(context, ": ", reason))
}

/// A failure before anything was sent says so: nothing was tried or sent, the
/// session stays, and nothing is repeated by itself.
pub proof fn law_early_failures_sent_nothing(fresh: bool)
    ensures
        pre_dispatch_details(fresh).phase == Some(ComputerUseErrorPhase::PreDispatch),
        pre_dispatch_details(fresh).action_attempted == Some(false),
        pre_dispatch_details(fresh).input_sent == Some(ComputerUseInputState::NotSent),
        pre_dispatch_details(fresh).completion == Some(ComputerUseCompletionState::Known),
        pre_dispatch_details(fresh).local_session_invalidated == Some(false),
        pre_dispatch_details(fresh).session_remains_active == Some(true),
        pre_dispatch_details(fresh).automatic_input == Some(false),
        pre_dispatch_details(fresh).blind_retry == Some(false),
        pre_dispatch_details(fresh).fresh_observation_required == Some(fresh),
        pre_dispatch_details(fresh).exact_target_revalidation_required is None,
        refresh_required_details().input_sent == Some(ComputerUseInputState::NotSent),
        refresh_required_details().fresh_observation_required == Some(true),
        refresh_required_details().exact_target_revalidation_required == Some(true),
        refresh_required_details().blind_retry == Some(false),
{
}

/// A failure of an action that was tried says that input may have been sent; where
/// its end is known the session stays, where it is not the session is void. Either
/// way a fresh look is needed, and nothing is repeated by itself.
pub proof fn law_tried_actions_may_have_sent_input()
    ensures
        known_dispatch_details().phase == Some(ComputerUseErrorPhase::ActionDispatch),
        known_dispatch_details().action_attempted == Some(true),
        known_dispatch_details().input_sent == Some(ComputerUseInputState::Unknown),
        known_dispatch_details().completion == Some(ComputerUseCompletionState::Known),
        known_dispatch_details().local_session_invalidated == Some(false),
        known_dispatch_details().session_remains_active == Some(true),
        known_dispatch_details().fresh_observation_required == Some(true),
        known_dispatch_details().blind_retry == Some(false),
        known_dispatch_details().automatic_input == Some(false),
        unknown_dispatch_details().action_attempted == Some(true),
        unknown_dispatch_details().input_sent == Some(ComputerUseInputState::Unknown),
        unknown_dispatch_details().completion == Some(ComputerUseCompletionState::Unknown),
        unknown_dispatch_details().local_session_invalidated == Some(true),
        unknown_dispatch_details().session_remains_active is None,
        unknown_dispatch_details().fresh_observation_required == Some(true),
        unknown_dispatch_details().blind_retry == Some(false),
        local_mutation_details().phase == Some(ComputerUseErrorPhase::LocalMutationDispatch),
        local_mutation_details().effect_unknown == Some(true),
        local_mutation_details().action_attempted == Some(true),
        local_mutation_details().fresh_observation_required == Some(true),
{
}

/// A failure of an activation says that the focus may have moved, and that nothing
/// was typed.
pub proof fn law_failed_activations_typed_nothing(mode: String)
    ensures
        activation_validation_details().phase == Some(ComputerUseErrorPhase::ActivationDispatch),
        activation_validation_details().focus_mutation_attempted == Some(true),
        activation_validation_details().action_attempted == Some(false),
        activation_validation_details().input_sent == Some(ComputerUseInputState::NotSent),
        activation_validation_details().effect_unknown == Some(false),
        activation_validation_details().blind_retry == Some(false),
        activation_validation_details().fresh_observation_required == Some(true),
        activation_attempt_details().focus_mutation_attempted == Some(true),
        activation_attempt_details().input_sent == Some(ComputerUseInputState::NotSent),
        activation_attempt_details().local_session_invalidated == Some(false),
        activation_attempt_details().session_remains_active == Some(true),
        activation_refused_details(mode).phase == Some(ComputerUseErrorPhase::ActivationDispatch),
        activation_refused_details(mode).input_sent == Some(ComputerUseInputState::NotSent),
        activation_refused_details(mode).background_delivery_viable == Some(true),
        activation_refused_details(mode).suggested_delivery_mode == Some(mode),
        activation_refused_details(mode).blind_retry == Some(false),
        activation_refused_details(mode).fresh_observation_required == Some(true),
{
}

/// A refresh that did not come back, and a read that failed, sent no input and
/// leave the session; a window that another took over is never bound anew by
/// itself.
pub proof fn law_failed_reads_sent_nothing(
    timed_out: Option<bool>,
    completion: Option<ComputerUseCompletionState>,
    suggested: ComputerUseTargetScope,
)
    ensures
        refresh_unknown_details().timed_out == Some(true),
        refresh_unknown_details().phase == Some(ComputerUseErrorPhase::UpstreamSessionRefresh),
        refresh_unknown_details().action_attempted == Some(false),
        refresh_unknown_details().input_sent == Some(ComputerUseInputState::NotSent),
        refresh_unknown_details().completion == Some(ComputerUseCompletionState::Unknown),
        refresh_unknown_details().session_remains_active == Some(true),
        refresh_unknown_details().fresh_observation_required == Some(true),
        refresh_unknown_details().exact_target_revalidation_required == Some(true),
        evidence_details(timed_out, completion).timed_out == timed_out,
        evidence_details(timed_out, completion).completion == completion,
        evidence_details(timed_out, completion).phase == Some(
            ComputerUseErrorPhase::EvidenceDispatch,
        ),
        evidence_details(timed_out, completion).action_attempted == Some(false),
        evidence_details(timed_out, completion).input_sent == Some(ComputerUseInputState::NotSent),
        evidence_details(timed_out, completion).session_remains_active == Some(true),
        modal_details(suggested).suggested_target == Some(suggested),
        modal_details(suggested).automatic_rebind == Some(false),
        modal_details(suggested).explicit_rebind_required == Some(true),
        modal_details(suggested).input_sent == Some(ComputerUseInputState::NotSent),
        modal_details(suggested).action_attempted == Some(false),
{
}

/// An error that is told anew keeps its code and its words.
pub proof fn law_retold_errors_keep_their_words(
    before: ComputerUseError,
    after: ComputerUseError,
    details: ComputerUseErrorDetails,
)
    requires
        restated(before, after, details),
    ensures
        after.code == before.code,
        after.message == before.message,
        after.details == Some(details),
{
}

/// The completion of a read is unknown only where the driver's was.
pub proof fn law_completions_are_told_apart(completion: ActionCompletion)
    ensures
        evidence_completion(completion) == ComputerUseCompletionState::Unknown <==> completion
            == ActionCompletion::Unknown,
{
}

} // verus!
