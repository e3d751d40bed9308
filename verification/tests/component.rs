use std::time::Duration;
use wrk::component::A;

#[test]
fn new_component_reads_zero() {
    let a = A::new(Duration::new(5, 0));
    assert_eq!(a.get(), 0);
    assert_eq!(a.interval(), Duration::new(5, 0));
}

#[test]
fn updated_component_reads_42() {
    let mut a = A::new(Duration::new(7, 0));
    a.update_state();
    assert_eq!(a.get(), 42);
    assert_eq!(a.interval(), Duration::new(7, 0));
    a.update_state();
    assert_eq!(a.get(), 42);
}
