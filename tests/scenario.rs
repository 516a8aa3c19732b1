use wvn::codec::{decode, encode};
use wvn::negotiate::{initial, step, NegotiationEvent, NegotiationState, Role, SdpType};
use wvn::relay::{Relay, RelayAction, FRAME_SIZE};

fn advance(role: Role, s: NegotiationState, e: NegotiationEvent) -> NegotiationState {
    step(role, s, e).unwrap()
}

#[test]
fn offer_answer_exchange_then_relay_a_packet() {
    let offer = "{\"type\":\"offer\",\"sdp\":\"v=0\\r\\no=- 1 2 IN IP4 0.0.0.0\\r\\n\"}";
    let answer = "{\"type\":\"answer\",\"sdp\":\"v=0\\r\\no=- 3 4 IN IP4 0.0.0.0\\r\\n\"}";

    let mut offerer = initial(Role::Offerer);
    offerer = advance(Role::Offerer, offerer, NegotiationEvent::DescriptionCreated);
    offerer = advance(Role::Offerer, offerer, NegotiationEvent::GatheringDone);
    offerer = advance(Role::Offerer, offerer, NegotiationEvent::LocalApplied);
    let t1 = encode(offer);
    offerer = advance(Role::Offerer, offerer, NegotiationEvent::TokenEmitted);
    assert_eq!(offerer, NegotiationState::WaitingForAnswer);

    let mut answerer = initial(Role::Answerer);
    assert_eq!(decode(&t1), Ok(offer.to_string()));
    answerer = advance(Role::Answerer, answerer, NegotiationEvent::RemoteDescription(SdpType::Offer));
    answerer = advance(Role::Answerer, answerer, NegotiationEvent::DescriptionCreated);
    answerer = advance(Role::Answerer, answerer, NegotiationEvent::GatheringDone);
    answerer = advance(Role::Answerer, answerer, NegotiationEvent::LocalApplied);
    let t2 = encode(answer);
    answerer = advance(Role::Answerer, answerer, NegotiationEvent::TokenEmitted);
    assert_eq!(answerer, NegotiationState::Ready);

    assert_eq!(decode(&t2), Ok(answer.to_string()));
    offerer = advance(Role::Offerer, offerer, NegotiationEvent::RemoteDescription(SdpType::Answer));
    offerer = advance(Role::Offerer, offerer, NegotiationEvent::RemoteApplied);
    assert_eq!(offerer, NegotiationState::Ready);

    let mut out = Relay::new();
    let mut inn = Relay::new();
    out.on_open();
    inn.on_open();
    let payload: Vec<u8> = (0..64u8).collect();
    let mut buf = [0u8; FRAME_SIZE];
    buf[..64].copy_from_slice(&payload);
    let message = match out.on_read(&buf, 64) {
        RelayAction::Send(m) => m,
        other => panic!("unexpected {:?}", other),
    };
    assert_eq!(inn.on_message(&message), RelayAction::Write(payload));
}
