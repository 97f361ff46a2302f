use snat_proxy::binder::{BindAction, BindEvent, BindFailure, BindStage, SocketBinder};

const SRC: u128 = 0x2001_0db8_0000_0000_0000_0000_0000_00aa;

#[test]
fn successful_binding_runs_every_step() {
    let mut b = SocketBinder::new(SRC);
    assert_eq!(b.stage, BindStage::Fresh);
    assert_eq!(b.on_event(BindEvent::Start), BindAction::EnableFreebind);
    assert_eq!(b.on_event(BindEvent::FreebindSet(true)), BindAction::BindTo(SRC));
    assert_eq!(b.on_event(BindEvent::BindDone(true)), BindAction::ReadLocalAddr);
    assert_eq!(b.on_event(BindEvent::LocalAddrRead(Some(SRC))), BindAction::Report(SRC));
    assert_eq!(b.stage, BindStage::Ready);
    assert_eq!(b.source, SRC);
}

#[test]
fn bind_failure_aborts_for_good() {
    let mut b = SocketBinder::new(SRC);
    b.on_event(BindEvent::Start);
    b.on_event(BindEvent::FreebindSet(true));
    assert_eq!(b.on_event(BindEvent::BindDone(false)), BindAction::Abort(BindFailure::Bind));
    assert_eq!(b.stage, BindStage::Failed(BindFailure::Bind));
    assert_eq!(
        b.on_event(BindEvent::LocalAddrRead(Some(SRC))),
        BindAction::Abort(BindFailure::Bind)
    );
    assert_eq!(b.on_event(BindEvent::Start), BindAction::Abort(BindFailure::Bind));
    assert_eq!(b.stage, BindStage::Failed(BindFailure::Bind));
}

#[test]
fn freebind_failure_is_a_socket_option_error() {
    let mut b = SocketBinder::new(SRC);
    b.on_event(BindEvent::Start);
    assert_eq!(
        b.on_event(BindEvent::FreebindSet(false)),
        BindAction::Abort(BindFailure::SocketOption)
    );
    assert_eq!(b.stage, BindStage::Failed(BindFailure::SocketOption));
}

#[test]
fn missing_local_address_is_a_socket_error() {
    let mut b = SocketBinder::new(SRC);
    b.on_event(BindEvent::Start);
    b.on_event(BindEvent::FreebindSet(true));
    b.on_event(BindEvent::BindDone(true));
    assert_eq!(b.on_event(BindEvent::LocalAddrRead(None)), BindAction::Abort(BindFailure::Socket));
}

#[test]
fn out_of_order_event_fails() {
    let mut b = SocketBinder::new(SRC);
    assert_eq!(b.on_event(BindEvent::BindDone(true)), BindAction::Abort(BindFailure::Socket));
    assert_eq!(b.stage, BindStage::Failed(BindFailure::Socket));
}
