//! What a scheduler does next, and what it is told of what happened.
//!
//! The scheduler talks to peers, and waits for them. Each of its dealings is a
//! sequence of steps: the scheduler names an action, whoever drives it carries
//! the action out and comes back with the event. What has to be remembered
//! between the two travels with them.
use vstd::prelude::*;

use crate::error::{Error, ErrorView, Status, StatusView};
use crate::id;
use crate::id::Id;
use crate::info::{DeploymentInfo, DeploymentInfoView, GroupInfoView, ServerInfoView};
use crate::proto::{
    DeployRequest, DeployRequestView, DeployResponse, DeployResponseView, JoinRequest,
    JoinResponse, JoinResponseView, LookupResponseView, NominateResponse, NotifyResponse,
    SpawnResponse, SpawnResponseView,
};
use crate::views;

verus! {

/// What has happened to a call of a peer. `C` is what was to be remembered while
/// the peer was connected to, `D` while its answer was waited for, and `P` is the
/// answer.
#[derive(Debug)]
pub enum CallEvent<C, D, P> {
    /// The call is to be made.
    Started,
    /// The peer was reached, or not: then the reason.
    Connected(C, Result<(), String>),
    /// The peer answered, or refused the request.
    Answered(D, Result<P, Status>),
}

/// What is to be done next for a call of a peer. `C` and `D` are what is to come
/// back with the event, `Q` is the request, and `T` is what the call comes to.
#[derive(Debug)]
pub enum CallAction<C, D, Q, T> {
    /// Connect to the peer at the address.
    Connect(String, C),
    /// Send the request over the connection.
    Send(Q, D),
    /// The call is over.
    Done(Result<T, Error>),
}

/// What a notification of the other group comes to, once it was answered.
pub open spec fn notify_outcome(answer: Result<NotifyResponse, StatusView>) -> Result<
    (),
    ErrorView,
> {
    match answer {
        Err(status) => Err(ErrorView::RpcError(status)),
        Ok(response) => if response.success {
            Ok(())
        } else {
            Err(ErrorView::Text("Unsuccessful notify"@))
        },
    }
}

/// What a nomination comes to, once it was answered.
pub open spec fn nominate_outcome(answer: Result<NominateResponse, StatusView>) -> Result<
    (),
    ErrorView,
> {
    match answer {
        Err(status) => Err(ErrorView::RpcError(status)),
        Ok(response) => if response.success {
            Ok(())
        } else {
            Err(ErrorView::Text("unsuccessful nomination of a new scheduler"@))
        },
    }
}

/// What a deployment in the other group comes to, once it was answered.
pub open spec fn deploy_outcome(answer: Result<DeployResponseView, StatusView>) -> Result<
    DeployResponseView,
    ErrorView,
> {
    match answer {
        Err(status) => Err(ErrorView::RpcError(status)),
        Ok(response) => if response.success {
            Ok(response)
        } else {
            Err(ErrorView::Text("Unsuccessful deploy"@))
        },
    }
}

/// What an attempt to run an instance comes to, once it was answered.
pub open spec fn spawn_outcome(answer: Result<SpawnResponseView, StatusView>) -> Result<
    SpawnResponseView,
    ErrorView,
> {
    match answer {
        Err(status) => Err(ErrorView::RpcError(status)),
        Ok(response) => if response.success {
            Ok(response)
        } else {
            Err(ErrorView::Text("Unsuccessful spawn"@))
        },
    }
}

/// What has happened to a request to join.
#[derive(Debug)]
pub enum JoinEvent {
    /// The request came in.
    Requested(JoinRequest),
    /// The notification of the other group came to this.
    Notified(Result<(), Error>),
    /// The nomination of a new scheduler for the other group came to this.
    Nominated(Result<(), Error>),
}

/// What is to be done next for a request to join.
#[derive(Debug)]
pub enum JoinAction {
    /// Notify the other group.
    Notify,
    /// Nominate a new scheduler for the other group.
    Nominate,
    /// Answer the request.
    Reply(Result<JoinResponse, Status>),
}

/// The view of a [`JoinAction`].
pub enum JoinActionView {
    Notify,
    Nominate,
    Reply(Result<JoinResponseView, StatusView>),
}

impl View for JoinAction {
    type V = JoinActionView;

    open spec fn view(&self) -> JoinActionView {
        match *self {
            JoinAction::Notify => JoinActionView::Notify,
            JoinAction::Nominate => JoinActionView::Nominate,
            JoinAction::Reply(reply) => JoinActionView::Reply(views::result_view(reply)),
        }
    }
}

/// The answer to a server that joined a group, after the other group was told,
/// or was not.
pub open spec fn join_reply(group: GroupInfoView, outcome: Result<(), ErrorView>) -> Result<
    JoinResponseView,
    StatusView,
> {
    match outcome {
        Ok(_) => Ok(
            JoinResponseView {
                success: true,
                group: Some(group.encode()),
                is_scheduler: false,
                our_group: None,
                nomination: None,
            },
        ),
        Err(error) => Err(error.status()),
    }
}

/// What follows the notification of the other group. Where its scheduler could
/// not be reached, a new one is nominated; any other failure is final.
pub open spec fn join_after_notify(
    group: GroupInfoView,
    outcome: Result<(), ErrorView>,
) -> JoinActionView {
    match outcome {
        Err(ErrorView::TransportError(_)) => JoinActionView::Nominate,
        _ => JoinActionView::Reply(join_reply(group, outcome)),
    }
}

/// What is remembered of a request to deploy while it is carried out.
#[derive(Debug)]
pub struct DeployContext {
    pub deployment: DeploymentInfo,
    /// Whether the request is to be passed on to the other group.
    pub authoritative: bool,
    /// Whether every step so far was a success.
    pub success: bool,
}

/// The view of a [`DeployContext`].
pub struct DeployContextView {
    pub deployment: DeploymentInfoView,
    pub authoritative: bool,
    pub success: bool,
}

impl View for DeployContext {
    type V = DeployContextView;

    open spec fn view(&self) -> DeployContextView {
        DeployContextView {
            deployment: self.deployment@,
            authoritative: self.authoritative,
            success: self.success,
        }
    }
}

/// What has happened to a request to deploy.
#[derive(Debug)]
pub enum DeployEvent {
    /// The request came in.
    Requested(DeployRequest),
    /// The deployment in this group came to this.
    DeployedInUs(DeployContext, Result<SpawnResponse, Error>),
    /// The deployment in the other group came to this.
    DeployedToOther(DeployContext, Result<DeployResponse, Error>),
}

/// What is to be done next for a request to deploy.
#[derive(Debug)]
pub enum DeployAction {
    /// Deploy in this group.
    DeployInUs(DeployContext),
    /// Pass the request on to the other group.
    DeployToOther(DeployContext, DeployRequest),
    /// Answer the request.
    Reply(Result<DeployResponse, Status>),
}

/// The view of a [`DeployAction`].
pub enum DeployActionView {
    DeployInUs(DeployContextView),
    DeployToOther(DeployContextView, DeployRequestView),
    Reply(Result<DeployResponseView, StatusView>),
}

impl View for DeployAction {
    type V = DeployActionView;

    open spec fn view(&self) -> DeployActionView {
        match *self {
            DeployAction::DeployInUs(context) => DeployActionView::DeployInUs(context@),
            DeployAction::DeployToOther(context, request) => DeployActionView::DeployToOther(
                context@,
                request@,
            ),
            DeployAction::Reply(reply) => DeployActionView::Reply(views::result_view(reply)),
        }
    }
}

impl DeployContextView {
    /// The context after one more step, and whether that was a success.
    pub open spec fn and_success(self, success: bool) -> DeployContextView {
        DeployContextView { success: self.success && success, ..self }
    }

    /// The answer to the request once all is done.
    pub open spec fn response(self) -> DeployResponseView {
        DeployResponseView { success: self.success, deployment: Some(self.deployment.encode()) }
    }
}

/// What follows the deployment in this group. Only an authoritative request is
/// passed on, and it is not authoritative any more.
pub open spec fn deploy_after_us(
    context: DeployContextView,
    outcome: Result<SpawnResponseView, ErrorView>,
) -> DeployActionView {
    match outcome {
        Err(error) => DeployActionView::Reply(Err(error.status())),
        Ok(response) => {
            let context = context.and_success(response.success);
            if context.authoritative {
                DeployActionView::DeployToOther(
                    context,
                    DeployRequestView { source: context.deployment.source, authoritative: false },
                )
            } else {
                DeployActionView::Reply(Ok(context.response()))
            }
        },
    }
}

/// What follows the deployment in the other group.
pub open spec fn deploy_after_other(
    context: DeployContextView,
    outcome: Result<DeployResponseView, ErrorView>,
) -> DeployActionView {
    match outcome {
        Err(error) => DeployActionView::Reply(Err(error.status())),
        Ok(response) => DeployActionView::Reply(
            Ok(context.and_success(response.success).response()),
        ),
    }
}

/// The answer to a lookup of a known deployment, after the strategy was asked for
/// a server that runs it.
pub open spec fn lookup_reply(id: Id, scheduled: Option<ServerInfoView>) -> Result<
    LookupResponseView,
    StatusView,
> {
    match scheduled {
        None => Err(StatusView::aborted("Failed to schedule"@)),
        Some(target) => Ok(
            LookupResponseView {
                success: true,
                deployment_id: id::hyphenated(id),
                server: Some(target.encode()),
            },
        ),
    }
}

} // verus!
