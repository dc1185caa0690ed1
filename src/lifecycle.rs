//! Starting the duty services in their fixed order, and keeping the handle that stops
//! each one that started.
use vstd::prelude::*;

verus! {

/// The duty services, in the order in which they start.
#[derive(Clone, Copy, Debug, PartialEq, Eq)]
pub enum ServiceKind {
    Duties,
    Fork,
    Block,
    Attestation,
}

/// Number of duty services.
pub const SERVICE_COUNT: usize = 4;

/// The service that starts in position `i` of the start order.
pub open spec fn kind_at(i: int) -> ServiceKind {
    if i == 0 {
        ServiceKind::Duties
    } else if i == 1 {
        ServiceKind::Fork
    } else if i == 2 {
        ServiceKind::Block
    } else {
        ServiceKind::Attestation
    }
}

/// The name of a service in messages.
pub open spec fn service_name(k: ServiceKind) -> Seq<char> {
    match k {
        ServiceKind::Duties => "duties"@,
        ServiceKind::Fork => "fork"@,
        ServiceKind::Block => "block"@,
        ServiceKind::Attestation => "attestation"@,
    }
}

/// The message of a service that failed to start.
pub open spec fn start_error(k: ServiceKind, cause: Seq<char>) -> Seq<char> {
    "Unable to start "@ + service_name(k) + " service: "@ + cause
}

fn kind_for(i: usize) -> (r: ServiceKind)
    requires
        i < SERVICE_COUNT,
    ensures
        r == kind_at(i as int),
{
    if i == 0 {
        ServiceKind::Duties
    } else if i == 1 {
        ServiceKind::Fork
    } else if i == 2 {
        ServiceKind::Block
    } else {
        ServiceKind::Attestation
    }
}

impl ServiceKind {
    pub fn name(&self) -> (r: &'static str)
        ensures
            r@ == service_name(*self),
    {
        proof {
            reveal_strlit("duties");
            reveal_strlit("fork");
            reveal_strlit("block");
            reveal_strlit("attestation");
        }
        match self {
            ServiceKind::Duties => "duties",
            ServiceKind::Fork => "fork",
            ServiceKind::Block => "block",
            ServiceKind::Attestation => "attestation",
        }
    }
}

/// The stop handles of the services that started, in the order they started.
pub struct ExitRegistry<S> {
    signals: Vec<S>,
}

impl<S> ExitRegistry<S> {
    pub closed spec fn view(&self) -> Seq<S> {
        self.signals@
    }

    pub fn new() -> (r: Self)
        ensures
            r@ == Seq::<S>::empty(),
    {
        ExitRegistry { signals: Vec::new() }
    }

    /// Keeps the stop handle of a service that started.
    pub fn register(&mut self, signal: S)
        ensures
            final(self)@ == old(self)@.push(signal),
    {
        self.signals.push(signal);
    }

    pub fn len(&self) -> (r: usize)
        ensures
            r == self@.len(),
    {
        self.signals.len()
    }

    /// Hands out every kept handle, in the order they were registered, and forgets them.
    /// Firing or dropping them stops the services.
    pub fn shutdown_all(&mut self) -> (r: Vec<S>)
        ensures
            r@ == old(self)@,
            final(self)@ == Seq::<S>::empty(),
    {
        let mut signals: Vec<S> = Vec::new();
        std::mem::swap(&mut signals, &mut self.signals);
        signals
    }
}

/// What the start sequence asks of its driver next.
#[derive(Clone, Copy, Debug, PartialEq, Eq)]
pub enum LaunchAction {
    /// Start this service and report how it went.
    Start(ServiceKind),
    /// Nothing more to start: the outcome is final.
    Finished,
}

/// The start sequence: services start one at a time in the fixed order, and the first
/// failure ends the sequence. Services that started before a failure keep running.
pub struct ServiceLauncher {
    started: usize,
    failure: Option<String>,
}

impl ServiceLauncher {
    /// Number of services that have started.
    pub closed spec fn started(&self) -> nat {
        self.started as nat
    }

    /// The message of the failure that ended the sequence, if any.
    pub closed spec fn failure(&self) -> Option<Seq<char>> {
        match self.failure {
            Some(e) => Some(e@),
            None => None,
        }
    }

    pub closed spec fn wf(&self) -> bool {
        self.started <= SERVICE_COUNT
    }

    pub open spec fn is_finished(&self) -> bool {
        self.failure() is Some || self.started() == SERVICE_COUNT
    }

    pub fn new() -> (r: Self)
        ensures
            r.wf(),
            r.started() == 0,
            r.failure() is None,
    {
        ServiceLauncher { started: 0, failure: None }
    }

    pub fn next_action(&self) -> (r: LaunchAction)
        requires
            self.wf(),
        ensures
            self.is_finished() ==> r == LaunchAction::Finished,
            !self.is_finished() ==> r == LaunchAction::Start(kind_at(self.started() as int)),
    {
        if self.failure.is_some() || self.started == SERVICE_COUNT {
            LaunchAction::Finished
        } else {
            LaunchAction::Start(kind_for(self.started))
        }
    }

    /// Records how starting the next service went: a started service's stop handle joins
    /// `registry`; a failure ends the sequence with a message that names the service.
    pub fn on_started<S>(&mut self, registry: &mut ExitRegistry<S>, result: Result<S, String>)
        requires
            old(self).wf(),
            !old(self).is_finished(),
        ensures
            final(self).wf(),
            match result {
                Ok(signal) => {
                    &&& final(self).started() == old(self).started() + 1
                    &&& final(self).failure() is None
                    &&& final(registry)@ == old(registry)@.push(signal)
                },
                Err(e) => {
                    &&& final(self).started() == old(self).started()
                    &&& final(self).failure() == Some(
                        start_error(kind_at(old(self).started() as int), e@),
                    )
                    &&& final(registry)@ == old(registry)@
                },
            },
    {
        match result {
            Ok(signal) => {
                registry.register(signal);
                self.started = self.started + 1;
            },
            Err(e) => {
                let kind = kind_for(self.started);
                let mut msg = String::from_str("Unable to start ");
                msg.append(kind.name());
                msg.append(" service: ");
                msg.append(e.as_str());
                proof {
                    reveal_strlit("Unable to start ");
                    reveal_strlit(" service: ");
                }
                self.failure = Some(msg);
            },
        }
    }

    /// The outcome of a finished sequence: `Ok` when every service started.
    pub fn outcome(&self) -> (r: Result<(), String>)
        requires
            self.is_finished(),
        ensures
            r is Ok <==> self.failure() is None,
            r matches Err(e) ==> self.failure() == Some(e@),
    {
        match &self.failure {
            Some(e) => Err(e.clone()),
            None => Ok(()),
        }
    }
}

} // verus!
