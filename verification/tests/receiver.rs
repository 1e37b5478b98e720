use ockam_core::{Address, Encodable, Route, TransportMessage, Uint};
use pipe_receiver::address::PipeAddress;
use pipe_receiver::behavior::{HookError, Outbox, PipeBehavior};
use pipe_receiver::probe::{Probe, Stance};
use pipe_receiver::envelope::{InternalCmd, PipeMessage, TransportParts, WireError};
use pipe_receiver::receiver::{Action, DropReason, Inbound, Path, PipeError, PipeReceiver};

fn data_addr() -> PipeAddress {
    PipeAddress::new(0, b"pipe.rx".to_vec())
}

fn ctrl_addr() -> PipeAddress {
    PipeAddress::new(0, b"pipe.rx.int".to_vec())
}

fn back() -> Vec<PipeAddress> {
    vec![PipeAddress::new(1, b"peer".to_vec()), PipeAddress::new(0, b"pipe.tx".to_vec())]
}

fn chain(kinds: &[Stance]) -> PipeBehavior<Probe> {
    let mut hooks = PipeBehavior::new();
    for k in kinds {
        hooks = hooks.attach(Probe::new(*k));
    }
    hooks
}

fn receiver(kinds: &[Stance]) -> PipeReceiver<Probe> {
    PipeReceiver::create(data_addr(), ctrl_addr(), chain(kinds)).worker
}

/// The bytes of a transport message to `app` with the body `body`.
fn wrapped(body: &[u8]) -> Vec<u8> {
    let onward = Route::create(vec![Address::from((0u8, b"app".to_vec()))]);
    let ret = Route::create(vec![
        Address::from((2u8, b"origin".to_vec())),
        Address::from((0u8, b"sender".to_vec())),
    ]);
    TransportMessage::v1(onward, ret, body.to_vec()).encode().unwrap()
}

fn envelope(index: u64, payload: Vec<u8>) -> Vec<u8> {
    (Uint::from(index), payload).encode().unwrap()
}

fn to_data(payload: Vec<u8>) -> Inbound {
    Inbound { msg_addr: data_addr(), return_route: back(), payload }
}

fn to_ctrl(payload: Vec<u8>) -> Inbound {
    Inbound { msg_addr: ctrl_addr(), return_route: back(), payload }
}

/// Handles `msg` with hooks that are expected to send nothing.
fn handle(rx: &mut PipeReceiver<Probe>, msg: &Inbound) -> Result<Action, PipeError> {
    let mut outbox = Outbox::new();
    let r = rx.handle_message(&mut outbox, msg);
    assert_eq!(outbox.len(), 0);
    r
}

fn expect_forward(r: Result<Action, PipeError>) -> TransportParts {
    match r {
        Ok(Action::Forward(m)) => m,
        other => panic!("not forwarded: {:?}", other),
    }
}

fn seen(rx: &PipeReceiver<Probe>, i: usize) -> (u64, u64) {
    let h = rx.hooks().hook(i).unwrap();
    (h.messages, h.commands)
}

#[test]
fn empty_chain_forwards_payload_unchanged() {
    let mut rx = receiver(&[]);
    let body = b"hello over the pipe".to_vec();
    let m = expect_forward(handle(&mut rx, &to_data(envelope(5, wrapped(&body)))));
    assert_eq!(m.payload, body);
    assert_eq!(m.version, 1);
    assert_eq!(m.onward_route, vec![PipeAddress::new(0, b"app".to_vec())]);
    assert_eq!(
        m.return_route,
        vec![PipeAddress::new(2, b"origin".to_vec()), PipeAddress::new(0, b"sender".to_vec())]
    );
}

#[test]
fn always_drop_discards_and_succeeds() {
    let mut rx = receiver(&[Stance::Veto]);
    let r = handle(&mut rx, &to_data(envelope(1, wrapped(b"x"))));
    assert_eq!(r, Ok(Action::Discard(DropReason::Vetoed)));
    assert_eq!(seen(&rx, 0), (1, 0));
}

#[test]
fn always_error_is_absorbed() {
    let mut rx = receiver(&[Stance::Fail(HookError { code: 77 })]);
    let r = handle(&mut rx, &to_data(envelope(1, wrapped(b"x"))));
    assert_eq!(r, Ok(Action::Discard(DropReason::HookFailed(HookError { code: 77 }))));
    // the receiver goes on serving
    let r = handle(&mut rx, &to_data(envelope(2, wrapped(b"y"))));
    assert_eq!(r, Ok(Action::Discard(DropReason::HookFailed(HookError { code: 77 }))));
    assert_eq!(seen(&rx, 0), (2, 0));
}

#[test]
fn handshake_command_reaches_hook_once() {
    let mut rx = receiver(&[Stance::Pass]);
    let bytes = Uint::from(InternalCmd::HandshakeComplete.tag()).encode().unwrap();
    assert_eq!(bytes, vec![0u8]);
    let r = handle(&mut rx, &to_ctrl(bytes));
    assert_eq!(r, Ok(Action::Handled));
    assert_eq!(seen(&rx, 0), (0, 1));
    assert_eq!(rx.hooks().hook(0).unwrap().last_index, None);
}

#[test]
fn malformed_data_is_dropped_and_next_is_served() {
    let mut rx = receiver(&[Stance::Pass]);
    assert_eq!(handle(&mut rx, &to_data(vec![])), Ok(Action::Discard(DropReason::Malformed)));
    // an index with no payload behind it
    assert_eq!(handle(&mut rx, &to_data(vec![5])), Ok(Action::Discard(DropReason::Malformed)));
    // a payload length that runs past the end
    assert_eq!(
        handle(&mut rx, &to_data(vec![5, 3, 1])),
        Ok(Action::Discard(DropReason::Malformed))
    );
    assert_eq!(seen(&rx, 0), (0, 0));
    let m = expect_forward(handle(&mut rx, &to_data(envelope(6, wrapped(b"next")))));
    assert_eq!(m.payload, b"next".to_vec());
    assert_eq!(seen(&rx, 0), (1, 0));
}

#[test]
fn veto_stops_the_chain() {
    let mut rx = receiver(&[Stance::Pass, Stance::Veto, Stance::Pass, Stance::Fail(HookError { code: 1 })]);
    let r = handle(&mut rx, &to_data(envelope(9, wrapped(b"x"))));
    assert_eq!(r, Ok(Action::Discard(DropReason::Vetoed)));
    assert_eq!(seen(&rx, 0), (1, 0));
    assert_eq!(seen(&rx, 1), (1, 0));
    assert_eq!(seen(&rx, 2), (0, 0));
    assert_eq!(seen(&rx, 3), (0, 0));
}

#[test]
fn all_continue_forwards_what_was_wrapped() {
    let mut rx = receiver(&[Stance::Pass, Stance::Pass, Stance::Pass]);
    let body: Vec<u8> = (0u8..=255).collect();
    let inner = wrapped(&body);
    let m = expect_forward(handle(&mut rx, &to_data(envelope(u64::MAX, inner.clone()))));
    assert_eq!(m.payload, body);
    assert_eq!(m.onward_route, vec![PipeAddress::new(0, b"app".to_vec())]);
    assert_eq!(m, TransportParts::decode(&inner).unwrap());
    for i in 0..3 {
        assert_eq!(seen(&rx, i), (1, 0));
    }
}

#[test]
fn hooks_see_the_message_in_configured_order() {
    let msg = to_data(envelope(3, wrapped(b"x")));
    let mut rx = receiver(&[Stance::Veto, Stance::Fail(HookError { code: 4 })]);
    assert_eq!(handle(&mut rx, &msg), Ok(Action::Discard(DropReason::Vetoed)));
    assert_eq!((seen(&rx, 0), seen(&rx, 1)), ((1, 0), (0, 0)));
    let mut rx = receiver(&[Stance::Fail(HookError { code: 4 }), Stance::Veto]);
    assert_eq!(
        handle(&mut rx, &msg),
        Ok(Action::Discard(DropReason::HookFailed(HookError { code: 4 })))
    );
    assert_eq!((seen(&rx, 0), seen(&rx, 1)), ((1, 0), (0, 0)));
}

#[test]
fn hooks_are_handed_the_decoded_envelope() {
    let mut rx = receiver(&[Stance::Pass, Stance::Veto, Stance::Pass]);
    let r = handle(&mut rx, &to_data(envelope(300, wrapped(b"body"))));
    assert_eq!(r, Ok(Action::Discard(DropReason::Vetoed)));
    assert_eq!(rx.hooks().hook(0).unwrap().last_index, Some(300));
    assert_eq!(rx.hooks().hook(1).unwrap().last_index, Some(300));
    assert_eq!(rx.hooks().hook(2).unwrap().last_index, None);
}

#[test]
fn control_address_never_takes_the_data_path() {
    let mut rx = receiver(&[Stance::Pass]);
    // a well-formed envelope, sent to the control address: index 0 reads as
    // the handshake tag, and nothing is forwarded
    let r = handle(&mut rx, &to_ctrl(envelope(0, wrapped(b"x"))));
    assert_eq!(r, Ok(Action::Handled));
    assert_eq!(seen(&rx, 0), (0, 1));
    let r = handle(&mut rx, &to_ctrl(envelope(5, wrapped(b"x"))));
    assert_eq!(r, Err(PipeError::Command(WireError::UnknownCommand { tag: 5 })));
    assert_eq!(seen(&rx, 0), (0, 1));
}

#[test]
fn data_address_never_takes_the_control_path() {
    let mut rx = receiver(&[Stance::Pass]);
    // the bytes of a command, sent to the data address: no envelope
    let r = handle(&mut rx, &to_data(vec![0]));
    assert_eq!(r, Ok(Action::Discard(DropReason::Malformed)));
    assert_eq!(seen(&rx, 0), (0, 0));
    // any other address is data too
    let other = Inbound {
        msg_addr: PipeAddress::new(1, b"pipe.rx.int".to_vec()),
        return_route: back(),
        payload: envelope(1, wrapped(b"z")),
    };
    let m = expect_forward(handle(&mut rx, &other));
    assert_eq!(m.payload, b"z".to_vec());
    assert_eq!(seen(&rx, 0), (1, 0));
}

#[test]
fn malformed_command_is_an_error() {
    let mut rx = receiver(&[Stance::Pass]);
    assert_eq!(handle(&mut rx, &to_ctrl(vec![])), Err(PipeError::Command(WireError::Malformed)));
    assert_eq!(
        handle(&mut rx, &to_ctrl(vec![7])),
        Err(PipeError::Command(WireError::UnknownCommand { tag: 7 }))
    );
    assert_eq!(seen(&rx, 0), (0, 0));
    assert_eq!(handle(&mut rx, &to_ctrl(vec![0])), Ok(Action::Handled));
}

#[test]
fn failing_hook_fails_the_command() {
    let mut rx = receiver(&[Stance::Pass, Stance::Fail(HookError { code: 12 }), Stance::Pass]);
    let r = handle(&mut rx, &to_ctrl(vec![0]));
    assert_eq!(r, Err(PipeError::Hook(HookError { code: 12 })));
    assert_eq!((seen(&rx, 0), seen(&rx, 1), seen(&rx, 2)), ((0, 1), (0, 1), (0, 0)));
}

#[test]
fn payload_that_does_not_unwrap_is_discarded() {
    let mut rx = receiver(&[Stance::Pass]);
    let r = handle(&mut rx, &to_data(envelope(1, vec![])));
    assert_eq!(r, Ok(Action::Discard(DropReason::Unroutable)));
    assert_eq!(seen(&rx, 0), (1, 0));
    // a payload that is cut short
    let mut cut = wrapped(b"body");
    cut.pop();
    let r = handle(&mut rx, &to_data(envelope(2, cut)));
    assert_eq!(r, Ok(Action::Discard(DropReason::Unroutable)));
    // the receiver goes on serving
    let m = expect_forward(handle(&mut rx, &to_data(envelope(3, wrapped(b"body")))));
    assert_eq!(m.payload, b"body".to_vec());
    assert_eq!(seen(&rx, 0), (3, 0));
    // a vetoed message is never unwrapped
    let mut rx = receiver(&[Stance::Veto]);
    let r = handle(&mut rx, &to_data(envelope(1, vec![])));
    assert_eq!(r, Ok(Action::Discard(DropReason::Vetoed)));
}

#[test]
fn deliver_and_command_take_decoded_values() {
    let mut rx = receiver(&[Stance::Pass]);
    let r = rx.deliver(&back(), &mut Outbox::new(), Err(WireError::Malformed));
    assert_eq!(r, Ok(Action::Discard(DropReason::Malformed)));
    let m = expect_forward(rx.deliver(&back(), &mut Outbox::new(), Ok(PipeMessage::new(2, wrapped(b"q")))));
    assert_eq!(m.payload, b"q".to_vec());
    assert_eq!(
        rx.command(&back(), &mut Outbox::new(), Err(WireError::UnknownCommand { tag: 9 })),
        Err(PipeError::Command(WireError::UnknownCommand { tag: 9 }))
    );
    assert_eq!(rx.command(&back(), &mut Outbox::new(), Ok(InternalCmd::HandshakeComplete)), Ok(Action::Handled));
    assert_eq!(seen(&rx, 0), (1, 1));
}

#[test]
fn create_lists_data_address_then_control_address() {
    let reg = PipeReceiver::create(data_addr(), ctrl_addr(), chain(&[Stance::Pass, Stance::Veto]));
    assert_eq!(reg.addresses, vec![data_addr(), ctrl_addr()]);
    assert_eq!(reg.worker.addr(), &data_addr());
    assert_eq!(reg.worker.int_addr(), &ctrl_addr());
    assert_eq!(reg.worker.hooks().len(), 2);
    assert_eq!(reg.worker.hooks().hook(1).unwrap().stance, Stance::Veto);
    assert!(reg.worker.hooks().hook(2).is_none());
}

#[test]
fn route_compares_type_and_bytes() {
    let rx = receiver(&[]);
    assert_eq!(rx.route(&ctrl_addr()), Path::Internal);
    assert_eq!(rx.route(&data_addr()), Path::External);
    assert_eq!(rx.route(&PipeAddress::new(1, b"pipe.rx.int".to_vec())), Path::External);
    assert_eq!(rx.route(&PipeAddress::new(0, b"pipe.rx.inT".to_vec())), Path::External);
    assert_eq!(rx.route(&PipeAddress::new(0, b"pipe.rx.in".to_vec())), Path::External);
}

fn echo_of(payload: &[u8]) -> TransportParts {
    TransportParts {
        version: 1,
        onward_route: back(),
        return_route: vec![data_addr()],
        payload: payload.to_vec(),
    }
}

#[test]
fn hooks_send_through_the_outbox_in_chain_order() {
    let hooks = PipeBehavior::with(Probe::echoing(Stance::Pass))
        .attach(Probe::new(Stance::Pass))
        .attach(Probe::echoing(Stance::Veto))
        .attach(Probe::echoing(Stance::Pass));
    let mut rx = PipeReceiver::create(data_addr(), ctrl_addr(), hooks).worker;
    let mut outbox = Outbox::new();
    let first = wrapped(b"one");
    let r = rx.handle_message(&mut outbox, &to_data(envelope(1, first.clone())));
    assert_eq!(r, Ok(Action::Discard(DropReason::Vetoed)));
    // the first and the third hook echoed; the fourth never ran
    assert_eq!(outbox.len(), 2);
    assert_eq!(outbox.get(0), Some(&echo_of(&first)));
    assert_eq!(outbox.get(1), Some(&echo_of(&first)));
    assert_eq!(outbox.get(2), None);
    // what was queued stays in front of what comes later
    let second = wrapped(b"two");
    let r = rx.handle_message(&mut outbox, &to_data(envelope(2, second.clone())));
    assert_eq!(r, Ok(Action::Discard(DropReason::Vetoed)));
    assert_eq!(outbox.len(), 4);
    assert_eq!(outbox.get(1), Some(&echo_of(&first)));
    assert_eq!(outbox.get(2), Some(&echo_of(&second)));
    assert_eq!(outbox.get(3), Some(&echo_of(&second)));
    // nothing is sent for what does not decode, nor for a command
    assert_eq!(rx.handle_message(&mut outbox, &to_data(vec![])), Ok(Action::Discard(DropReason::Malformed)));
    assert_eq!(rx.handle_message(&mut outbox, &to_ctrl(vec![0])), Ok(Action::Handled));
    assert_eq!(outbox.len(), 4);
}

#[test]
fn echo_is_sent_even_when_the_payload_does_not_unwrap() {
    let mut rx =
        PipeReceiver::create(data_addr(), ctrl_addr(), PipeBehavior::with(Probe::echoing(Stance::Pass)))
            .worker;
    let mut outbox = Outbox::new();
    let r = rx.handle_message(&mut outbox, &to_data(envelope(1, vec![9, 9])));
    assert_eq!(r, Ok(Action::Discard(DropReason::Unroutable)));
    assert_eq!(outbox.len(), 1);
    assert_eq!(outbox.get(0), Some(&echo_of(&[9, 9])));
}

#[test]
fn empty_body_is_malformed_on_both_paths() {
    let mut rx =
        PipeReceiver::create(data_addr(), ctrl_addr(), PipeBehavior::with(Probe::echoing(Stance::Pass)))
            .worker;
    let mut outbox = Outbox::new();
    let r = rx.handle_message(&mut outbox, &to_data(vec![]));
    assert_eq!(r, Ok(Action::Discard(DropReason::Malformed)));
    let r = rx.handle_message(&mut outbox, &to_ctrl(vec![]));
    assert_eq!(r, Err(PipeError::Command(WireError::Malformed)));
    assert_eq!(rx.handle_external(&mut outbox, &to_ctrl(vec![])), Ok(Action::Discard(DropReason::Malformed)));
    assert_eq!(
        rx.handle_internal(&mut outbox, &to_data(vec![])),
        Err(PipeError::Command(WireError::Malformed))
    );
    assert_eq!(outbox.len(), 0);
    assert_eq!(seen(&rx, 0), (0, 0));
}
