use tokio_core::reactor::Core;
use wrk::spmc::{MyFuture, S};
use wrk::Delay;

#[test]
fn service_starts_with_42_and_5s_period() {
    let core = Core::new().unwrap();
    let s = S::new(core.handle());
    assert_eq!(s.dur(), Delay { secs: 5, nanos: 0 });
    assert_eq!(s.getAsync().poll(), Ok(42));
}

#[test]
fn future_is_ready_with_its_value() {
    assert_eq!(MyFuture::new(-3).poll(), Ok(-3));
}
