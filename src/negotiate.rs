//! The offer/answer exchange of one side, as a state machine driven by the
//! events that the transport and the person copying tokens produce.
use vstd::prelude::*;

verus! {

/// Which side of the exchange this process takes.
#[derive(Debug, Clone, Copy, PartialEq, Eq, Structural)]
pub enum Role {
    /// Creates the offer and waits for an answer.
    Offerer,
    /// Waits for an offer and replies with an answer.
    Answerer,
}

/// The type tag of a session description.
#[derive(Debug, Clone, Copy, PartialEq, Eq, Structural)]
pub enum SdpType {
    Unspecified,
    Offer,
    Pranswer,
    Answer,
    Rollback,
}

/// Where one side stands in the exchange.
#[derive(Debug, Clone, Copy, PartialEq, Eq, Structural)]
pub enum NegotiationState {
    Idle,
    WaitingForOffer,
    OfferCreated,
    AnswerCreated,
    GatheringComplete,
    LocalSet,
    WaitingForAnswer,
    RemoteSet,
    Ready,
}

/// What happened since the last step.
#[derive(Debug, Clone, Copy, PartialEq, Eq, Structural)]
pub enum NegotiationEvent {
    /// A decoded remote description of the given type was handed in.
    RemoteDescription(SdpType),
    /// The transport rejected the remote description.
    RemoteRejected,
    /// The transport created the local offer or answer.
    DescriptionCreated,
    /// Candidate gathering has finished.
    GatheringDone,
    /// The local description was applied.
    LocalApplied,
    /// The local token was handed to the person at the other end.
    TokenEmitted,
    /// The remote answer was applied.
    RemoteApplied,
}

/// Why the exchange stopped.
#[derive(Debug, Clone, Copy, PartialEq, Eq, Structural)]
pub enum NegotiationError {
    /// The remote description has the wrong type or the transport rejected it.
    InvalidRemoteDescription,
    /// The event does not fit the current state.
    OutOfOrder,
}

/// The state a side starts in.
pub open spec fn initial_spec(role: Role) -> NegotiationState {
    match role {
        Role::Offerer => NegotiationState::Idle,
        Role::Answerer => NegotiationState::WaitingForOffer,
    }
}

/// The type of description that a side expects from its peer.
pub open spec fn expected_remote(role: Role) -> SdpType {
    match role {
        Role::Offerer => SdpType::Answer,
        Role::Answerer => SdpType::Offer,
    }
}

/// The state that waits for the remote description.
pub open spec fn waiting_state(role: Role) -> NegotiationState {
    match role {
        Role::Offerer => NegotiationState::WaitingForAnswer,
        Role::Answerer => NegotiationState::WaitingForOffer,
    }
}

/// One step of the exchange.
pub open spec fn step_spec(role: Role, s: NegotiationState, e: NegotiationEvent) -> Result<
    NegotiationState,
    NegotiationError,
> {
    match e {
        NegotiationEvent::RemoteRejected => Err(NegotiationError::InvalidRemoteDescription),
        NegotiationEvent::RemoteDescription(t) => if s != waiting_state(role) {
            Err(NegotiationError::OutOfOrder)
        } else if t == expected_remote(role) {
            Ok(NegotiationState::RemoteSet)
        } else {
            Err(NegotiationError::InvalidRemoteDescription)
        },
        _ => match (role, s, e) {
            (Role::Offerer, NegotiationState::Idle, NegotiationEvent::DescriptionCreated) => Ok(
                NegotiationState::OfferCreated,
            ),
            (Role::Offerer, NegotiationState::OfferCreated, NegotiationEvent::GatheringDone) => Ok(
                NegotiationState::GatheringComplete,
            ),
            (Role::Answerer, NegotiationState::RemoteSet, NegotiationEvent::DescriptionCreated) => Ok(
                NegotiationState::AnswerCreated,
            ),
            (Role::Answerer, NegotiationState::AnswerCreated, NegotiationEvent::GatheringDone) => Ok(
                NegotiationState::GatheringComplete,
            ),
            (_, NegotiationState::GatheringComplete, NegotiationEvent::LocalApplied) => Ok(
                NegotiationState::LocalSet,
            ),
            (Role::Offerer, NegotiationState::LocalSet, NegotiationEvent::TokenEmitted) => Ok(
                NegotiationState::WaitingForAnswer,
            ),
            (Role::Answerer, NegotiationState::LocalSet, NegotiationEvent::TokenEmitted) => Ok(
                NegotiationState::Ready,
            ),
            (Role::Offerer, NegotiationState::RemoteSet, NegotiationEvent::RemoteApplied) => Ok(
                NegotiationState::Ready,
            ),
            _ => Err(NegotiationError::OutOfOrder),
        },
    }
}

/// The states passed through when `events` are fed in turn from `s`, or the
/// first error.
pub open spec fn run_spec(role: Role, s: NegotiationState, events: Seq<NegotiationEvent>) -> Result<
    Seq<NegotiationState>,
    NegotiationError,
>
    decreases events.len(),
{
    if events.len() == 0 {
        Ok(seq![])
    } else {
        match step_spec(role, s, events[0]) {
            Err(err) => Err(err),
            Ok(next) => match run_spec(role, next, events.skip(1)) {
                Err(err) => Err(err),
                Ok(rest) => Ok(seq![next] + rest),
            },
        }
    }
}

/// The events of a successful exchange on the answering side.
pub open spec fn answerer_events() -> Seq<NegotiationEvent> {
    seq![
        NegotiationEvent::RemoteDescription(SdpType::Offer),
        NegotiationEvent::DescriptionCreated,
        NegotiationEvent::GatheringDone,
        NegotiationEvent::LocalApplied,
        NegotiationEvent::TokenEmitted,
    ]
}

/// The states of a successful exchange on the answering side.
pub open spec fn answerer_states() -> Seq<NegotiationState> {
    seq![
        NegotiationState::RemoteSet,
        NegotiationState::AnswerCreated,
        NegotiationState::GatheringComplete,
        NegotiationState::LocalSet,
        NegotiationState::Ready,
    ]
}

/// The events of a successful exchange on the offering side.
pub open spec fn offerer_events() -> Seq<NegotiationEvent> {
    seq![
        NegotiationEvent::DescriptionCreated,
        NegotiationEvent::GatheringDone,
        NegotiationEvent::LocalApplied,
        NegotiationEvent::TokenEmitted,
        NegotiationEvent::RemoteDescription(SdpType::Answer),
        NegotiationEvent::RemoteApplied,
    ]
}

/// The states of a successful exchange on the offering side.
pub open spec fn offerer_states() -> Seq<NegotiationState> {
    seq![
        NegotiationState::OfferCreated,
        NegotiationState::GatheringComplete,
        NegotiationState::LocalSet,
        NegotiationState::WaitingForAnswer,
        NegotiationState::RemoteSet,
        NegotiationState::Ready,
    ]
}

/// The state a side starts in.
pub fn initial(role: Role) -> (r: NegotiationState)
    ensures
        r == initial_spec(role),
{
    match role {
        Role::Offerer => NegotiationState::Idle,
        Role::Answerer => NegotiationState::WaitingForOffer,
    }
}

/// Feeds one event to a side in state `s`.
pub fn step(role: Role, s: NegotiationState, e: NegotiationEvent) -> (r: Result<
    NegotiationState,
    NegotiationError,
>)
    ensures
        r == step_spec(role, s, e),
{
    match e {
        NegotiationEvent::RemoteRejected => Err(NegotiationError::InvalidRemoteDescription),
        NegotiationEvent::RemoteDescription(t) => {
            let (waiting, expected) = match role {
                Role::Offerer => (NegotiationState::WaitingForAnswer, SdpType::Answer),
                Role::Answerer => (NegotiationState::WaitingForOffer, SdpType::Offer),
            };
            if s != waiting {
                Err(NegotiationError::OutOfOrder)
            } else if t == expected {
                Ok(NegotiationState::RemoteSet)
            } else {
                Err(NegotiationError::InvalidRemoteDescription)
            }
        },
        _ => match (role, s, e) {
            (Role::Offerer, NegotiationState::Idle, NegotiationEvent::DescriptionCreated) => Ok(
                NegotiationState::OfferCreated,
            ),
            (Role::Offerer, NegotiationState::OfferCreated, NegotiationEvent::GatheringDone) => Ok(
                NegotiationState::GatheringComplete,
            ),
            (Role::Answerer, NegotiationState::RemoteSet, NegotiationEvent::DescriptionCreated) => Ok(
                NegotiationState::AnswerCreated,
            ),
            (Role::Answerer, NegotiationState::AnswerCreated, NegotiationEvent::GatheringDone) => Ok(
                NegotiationState::GatheringComplete,
            ),
            (_, NegotiationState::GatheringComplete, NegotiationEvent::LocalApplied) => Ok(
                NegotiationState::LocalSet,
            ),
            (Role::Offerer, NegotiationState::LocalSet, NegotiationEvent::TokenEmitted) => Ok(
                NegotiationState::WaitingForAnswer,
            ),
            (Role::Answerer, NegotiationState::LocalSet, NegotiationEvent::TokenEmitted) => Ok(
                NegotiationState::Ready,
            ),
            (Role::Offerer, NegotiationState::RemoteSet, NegotiationEvent::RemoteApplied) => Ok(
                NegotiationState::Ready,
            ),
            _ => Err(NegotiationError::OutOfOrder),
        },
    }
}

/// Feeds `events` in turn to a side in state `s`; returns the states passed
/// through, or the first error.
pub fn run(role: Role, s: NegotiationState, events: &[NegotiationEvent]) -> (r: Result<
    Vec<NegotiationState>,
    NegotiationError,
>)
    ensures
        match r {
            Ok(states) => run_spec(role, s, events@) == Ok::<
                Seq<NegotiationState>,
                NegotiationError,
            >(states@),
            Err(err) => run_spec(role, s, events@) == Err::<
                Seq<NegotiationState>,
                NegotiationError,
            >(err),
        },
{
    let mut states: Vec<NegotiationState> = Vec::new();
    let mut cur = s;
    let mut i: usize = 0;
    proof {
        assert(events@.skip(0) =~= events@);
        match run_spec(role, s, events@) {
            Err(_) => {},
            Ok(rest) => {
                assert(states@ + rest =~= rest);
            },
        }
    }
    while i < events.len()
        invariant
            i <= events@.len(),
            run_spec(role, s, events@) == match run_spec(role, cur, events@.skip(i as int)) {
                Err(err) => Err(err),
                Ok(rest) => Ok(states@ + rest),
            },
        decreases events@.len() - i,
    {
        let ghost tail = events@.skip(i as int);
        assert(tail.skip(1) =~= events@.skip(i + 1));
        match step(role, cur, events[i]) {
            Err(err) => {
                return Err(err);
            },
            Ok(next) => {
                proof {
                    match run_spec(role, next, tail.skip(1)) {
                        Err(_) => {},
                        Ok(rest) => {
                            assert(states@ + (seq![next] + rest) =~= states@.push(next) + rest);
                        },
                    }
                }
                states.push(next);
                cur = next;
            },
        }
        i = i + 1;
    }
    assert(events@.skip(i as int) =~= Seq::<NegotiationEvent>::empty());
    assert(states@ + Seq::<NegotiationState>::empty() =~= states@);
    Ok(states)
}

/// From the start, the answering side passes through `RemoteSet`,
/// `AnswerCreated`, `GatheringComplete`, `LocalSet` and `Ready`, in that order,
/// on every successful exchange; an offer of any other type is rejected as an
/// invalid remote description.
pub proof fn lemma_answerer_path(t: SdpType)
    ensures
        run_spec(Role::Answerer, initial_spec(Role::Answerer), answerer_events()) == Ok::<
            Seq<NegotiationState>,
            NegotiationError,
        >(answerer_states()),
        t != SdpType::Offer ==> step_spec(
            Role::Answerer,
            initial_spec(Role::Answerer),
            NegotiationEvent::RemoteDescription(t),
        ) == Err::<NegotiationState, NegotiationError>(NegotiationError::InvalidRemoteDescription),
{
    reveal_with_fuel(run_spec, 6);
    let ev = answerer_events();
    assert(ev.skip(1) =~= seq![ev[1], ev[2], ev[3], ev[4]]);
    assert(ev.skip(1).skip(1) =~= seq![ev[2], ev[3], ev[4]]);
    assert(ev.skip(1).skip(1).skip(1) =~= seq![ev[3], ev[4]]);
    assert(ev.skip(1).skip(1).skip(1).skip(1) =~= seq![ev[4]]);
    assert(ev.skip(1).skip(1).skip(1).skip(1).skip(1) =~= Seq::<NegotiationEvent>::empty());
    assert(answerer_states() =~= seq![answerer_states()[0]] + (seq![answerer_states()[1]] + (seq![
        answerer_states()[2],
    ] + (seq![answerer_states()[3]] + (seq![answerer_states()[4]] + Seq::<
        NegotiationState,
    >::empty())))));
}

/// From the start, the offering side passes through `OfferCreated`,
/// `GatheringComplete`, `LocalSet`, `WaitingForAnswer`, `RemoteSet` and
/// `Ready`, in that order, on every successful exchange; a description of any
/// type but an answer is then rejected as an invalid remote description.
pub proof fn lemma_offerer_path(t: SdpType)
    ensures
        run_spec(Role::Offerer, initial_spec(Role::Offerer), offerer_events()) == Ok::<
            Seq<NegotiationState>,
            NegotiationError,
        >(offerer_states()),
        t != SdpType::Answer ==> step_spec(
            Role::Offerer,
            NegotiationState::WaitingForAnswer,
            NegotiationEvent::RemoteDescription(t),
        ) == Err::<NegotiationState, NegotiationError>(NegotiationError::InvalidRemoteDescription),
{
    reveal_with_fuel(run_spec, 7);
    let ev = offerer_events();
    let st = offerer_states();
    assert(ev.skip(1) =~= seq![ev[1], ev[2], ev[3], ev[4], ev[5]]);
    assert(ev.skip(1).skip(1) =~= seq![ev[2], ev[3], ev[4], ev[5]]);
    assert(ev.skip(1).skip(1).skip(1) =~= seq![ev[3], ev[4], ev[5]]);
    assert(ev.skip(1).skip(1).skip(1).skip(1) =~= seq![ev[4], ev[5]]);
    assert(ev.skip(1).skip(1).skip(1).skip(1).skip(1) =~= seq![ev[5]]);
    assert(ev.skip(1).skip(1).skip(1).skip(1).skip(1).skip(1) =~= Seq::<NegotiationEvent>::empty());
    assert(st =~= seq![st[0]] + (seq![st[1]] + (seq![st[2]] + (seq![st[3]] + (seq![st[4]] + (
    seq![st[5]] + Seq::<NegotiationState>::empty()))))));
}

} // verus!
