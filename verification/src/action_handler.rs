//! The action dispatcher's intent side: one handler per intent, each
//! translating a command outcome into the domain events the event-sourced
//! store consumes. The surrounding binary reads intents off its channel,
//! runs the commands this library builds, and hands every outcome back to
//! these verified handlers — the single serialization point that keeps two
//! conflicting cluster commands from racing.

use vstd::prelude::*;

use crate::aws_api::AwsAPI;
use crate::structs::{KubeEnv, KubeEnvData, TUIEvent, TUIEventView};
use crate::thread_manager::WidgetTaskId;

verus! {

/// The events a finished connectivity check produces: a confirmed
/// connection clears the error; a failed one asks for the login prompt.
pub open spec fn connectivity_events(connectivity_ok: bool) -> Seq<TUIEventView> {
    if connectivity_ok {
        seq![TUIEventView::IsConnected, TUIEventView::ClearError]
    } else {
        seq![TUIEventView::RequestLoginStart]
    }
}

/// The events a finished environment switch produces: both steps must
/// succeed for the connection to be confirmed; any failure asks for the
/// login prompt.
pub open spec fn change_env_events(connectivity_ok: bool, update_ok: Option<bool>) -> Seq<
    TUIEventView,
> {
    if !connectivity_ok {
        seq![TUIEventView::RequestLoginStart]
    } else if update_ok == Some(true) {
        seq![TUIEventView::IsConnected, TUIEventView::ClearError]
    } else {
        seq![TUIEventView::RequestLoginStart]
    }
}

/// The single consumer of intents: holds the dispatcher's command side and
/// digests one intent's outcome at a time.
#[derive(Debug)]
pub struct ActionHandler {
    pub aws_api: AwsAPI,
}

impl ActionHandler {
    /// A handler over a fresh dispatcher.
    pub fn new() -> (r: Self)
        ensures
            r.aws_api.handler.events@ == Seq::<TUIEvent>::empty(),
            forall|id: WidgetTaskId| !r.aws_api.thread_manager.running(id),
    {
        ActionHandler { aws_api: AwsAPI::new() }
    }

    /// Digests the outcome of the connectivity-check intent.
    pub fn on_check_connectivity(&mut self, connectivity_ok: bool)
        ensures
            final(self).aws_api.handler.events.deep_view() == old(
                self,
            ).aws_api.handler.events.deep_view() + connectivity_events(connectivity_ok),
            final(self).aws_api.thread_manager == old(self).aws_api.thread_manager,
            final(self).aws_api.kube_env == old(self).aws_api.kube_env,
            final(self).aws_api.commands_provider == old(self).aws_api.commands_provider,
    {
        if connectivity_ok {
            self.aws_api.handler.events.push(TUIEvent::IsConnected);
            self.aws_api.handler.events.push(TUIEvent::ClearError);
        } else {
            self.aws_api.handler.events.push(TUIEvent::RequestLoginStart);
        }
        proof {
            assert(self.aws_api.handler.events.deep_view() =~= old(
                self,
            ).aws_api.handler.events.deep_view() + connectivity_events(connectivity_ok));
        }
    }

    /// Digests the outcome of the environment-change intent. The context
    /// switch is attempted only after the connectivity check passed, so an
    /// update outcome is present exactly then; attempting it also stops
    /// every live stream, since they must restart against the new cluster.
    /// Only full success installs the new environment configuration.
    pub fn on_change_env(&mut self, env: KubeEnv, connectivity_ok: bool, update_ok: Option<bool>)
        requires
            connectivity_ok <==> update_ok is Some,
        ensures
            final(self).aws_api.handler.events.deep_view() == old(
                self,
            ).aws_api.handler.events.deep_view() + change_env_events(connectivity_ok, update_ok),
            connectivity_ok ==> forall|id: WidgetTaskId|
                !final(self).aws_api.thread_manager.running(id),
            !connectivity_ok ==> final(self).aws_api.thread_manager == old(
                self,
            ).aws_api.thread_manager,
            update_ok == Some(true) ==> final(self).aws_api.kube_env@
                == crate::structs::spec_env_data(env),
            update_ok != Some(true) ==> final(self).aws_api.kube_env == old(self).aws_api.kube_env,
            final(self).aws_api.commands_provider == old(self).aws_api.commands_provider,
    {
        if !connectivity_ok {
            self.aws_api.handler.events.push(TUIEvent::RequestLoginStart);
            proof {
                assert(self.aws_api.handler.events.deep_view() =~= old(
                    self,
                ).aws_api.handler.events.deep_view() + change_env_events(
                    connectivity_ok,
                    update_ok,
                ));
            }
            return ;
        }
        self.aws_api.thread_manager.stop_threads();
        match update_ok {
            Some(true) => {
                let env_data = KubeEnvData::for_env(env);
                self.aws_api.set_kube_env(&env_data);
                self.aws_api.handler.events.push(TUIEvent::IsConnected);
                self.aws_api.handler.events.push(TUIEvent::ClearError);
            },
            Some(false) => {
                self.aws_api.handler.events.push(TUIEvent::RequestLoginStart);
            },
            None => {
                proof {
                    assert(false);
                }
            },
        }
        proof {
            assert(self.aws_api.handler.events.deep_view() =~= old(
                self,
            ).aws_api.handler.events.deep_view() + change_env_events(connectivity_ok, update_ok));
        }
    }
}

} // verus!
