use ceres::new;
use ceres::Builder;
use ceres::Component;
use ceres::Event;
use ceres::EventBus;
use ceres::Modulator;

fn fresh() -> (EventBus<Event>, Builder<i32>) {
    new::<i32, Event>()
}

#[test]
fn use_state_same_key_returns_equal_handles() {
    let (_bus, mut b) = fresh();
    let h1 = b.use_state(7, 0);
    let h2 = b.use_state(7, 99);
    assert_eq!(h1, h2);
    assert_eq!(h1.slot, 0);
}

#[test]
fn use_state_same_key_resolves_to_identical_storage() {
    let (_bus, mut b) = fresh();
    let h1 = b.use_state(7, 0);
    let h2 = b.use_state(7, 99);
    let hx = b.use_state(8, 5);
    let mut rt = b.build(Component::Identity);
    // The second registration's initial value is dropped: the slot holds
    // the first one.
    assert_eq!(*rt.get(h1), 0);
    *rt.get_mut(h1) = 42;
    assert_eq!(*rt.get(h2), 42);
    assert_eq!(*rt.get(hx), 5);
}

#[test]
fn use_state_distinct_keys_get_distinct_slots() {
    let (_bus, mut b) = fresh();
    let h1 = b.use_state(1, 10);
    let h2 = b.use_state(2, 20);
    assert_ne!(h1.slot, h2.slot);
    let rt = b.build(Component::Identity);
    assert_eq!(*rt.get(h1), 10);
    assert_eq!(*rt.get(h2), 20);
    assert_eq!(rt.state_count(), 2);
}

#[test]
fn use_modulator_never_deduplicates() {
    let (_bus, mut b) = fresh();
    let m1 = b.use_modulator(Modulator::Constant { value: 7 });
    let m2 = b.use_modulator(Modulator::Constant { value: 7 });
    let m3 = b.use_modulator(Modulator::Constant { value: 7 });
    assert_ne!(m1.slot, m2.slot);
    assert_ne!(m2.slot, m3.slot);
    assert_ne!(m1.slot, m3.slot);
    let rt = b.build(Component::Identity);
    assert_eq!(rt.source_count(), 3);
}

#[test]
fn use_parameters_deduplicates_and_keeps_first_base() {
    let (_bus, mut b) = fresh();
    let p1 = b.use_parameters(3, vec![111, 222]);
    let p2 = b.use_parameters(3, vec![999, 999]);
    assert_eq!(p1, p2);
    let rt = b.build(Component::Identity);
    assert_eq!(rt.param_count(), 1);
    let acc = rt.get_parameters(p1);
    // No routing installed: resolved values are the clamped first bases.
    assert_eq!(acc.value(0, 0), 111);
    assert_eq!(acc.value(1, 0), 222);
}

#[test]
fn get_source_mut_reaches_each_instance() {
    let (_bus, mut b) = fresh();
    let m1 = b.use_modulator(Modulator::Constant { value: 1 });
    let m2 = b.use_modulator(Modulator::Constant { value: 2 });
    let mut rt = b.build(Component::Identity);
    *rt.get_source_mut(m1) = Modulator::Constant { value: 10 };
    assert_eq!(*rt.get_source_mut(m1), Modulator::Constant { value: 10 });
    assert_eq!(*rt.get_source_mut(m2), Modulator::Constant { value: 2 });
}
