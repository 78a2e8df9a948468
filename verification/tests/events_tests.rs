use ceres::new;
use ceres::Builder;
use ceres::Component;
use ceres::Event;
use ceres::EventBus;
use ceres::Modulator;

fn fresh() -> (EventBus<Event>, Builder<i32>) {
    new::<i32, Event>()
}

fn midi(n: u8) -> Event {
    Event::Midi([n, 0, 0])
}

#[test]
fn drain_returns_events_in_arrival_order() {
    let (bus, _b) = fresh();
    bus.send(midi(1)).unwrap();
    bus.send(midi(2)).unwrap();
    bus.send(midi(3)).unwrap();
    assert_eq!(bus.try_recv_all(), vec![midi(1), midi(2), midi(3)]);
}

#[test]
fn drain_empties_the_queue() {
    let (bus, _b) = fresh();
    bus.send(midi(1)).unwrap();
    assert_eq!(bus.try_recv_all().len(), 1);
    assert_eq!(bus.try_recv_all(), Vec::<Event>::new());
}

#[test]
fn sender_clone_feeds_the_same_queue() {
    let (bus, _b) = fresh();
    let tx = bus.sender();
    tx.send(midi(9)).unwrap();
    assert_eq!(bus.try_recv_all(), vec![midi(9)]);
}

#[test]
fn bus_clone_shares_the_queue() {
    let (bus, _b) = fresh();
    let other = bus.clone();
    other.send(midi(4)).unwrap();
    assert_eq!(bus.try_recv_all(), vec![midi(4)]);
}

#[test]
fn send_fails_once_every_receiver_is_gone() {
    let (bus, _b) = fresh();
    let tx = bus.sender();
    drop(bus);
    assert!(tx.send(midi(1)).is_err());
}

#[test]
fn events_drained_before_tick_reach_every_modulator() {
    let (bus, mut b) = fresh();
    let m1 = b.use_modulator(Modulator::Counter { count: 0 });
    let m2 = b.use_modulator(Modulator::Counter { count: 0 });
    let mut rt = b.build(Component::Identity);

    bus.send(midi(1)).unwrap();
    bus.send(midi(2)).unwrap();
    let events = bus.try_recv_all();
    // This event arrives after the drain: it waits for the next tick.
    bus.send(midi(3)).unwrap();

    let inp: Vec<i64> = vec![0; 4];
    let mut out: Vec<i64> = vec![0; 4];
    rt.tick(48000, &events, &inp, &mut out);
    assert_eq!(*rt.get_source_mut(m1), Modulator::Counter { count: 2 });
    assert_eq!(*rt.get_source_mut(m2), Modulator::Counter { count: 2 });

    let events = bus.try_recv_all();
    rt.tick(48000, &events, &inp, &mut out);
    assert_eq!(*rt.get_source_mut(m1), Modulator::Counter { count: 3 });
    assert_eq!(*rt.get_source_mut(m2), Modulator::Counter { count: 3 });
}

#[test]
fn modulators_update_before_the_root_component_runs() {
    let (bus, mut b) = fresh();
    let m = b.use_modulator(Modulator::Counter { count: 0 });
    let p = b.use_parameters(1, vec![100]);
    let root = Component::Modulate { param: p, field: 0 };
    let mut rt = b.build(root);
    rt.route(m, p, 0, 5);

    bus.send(midi(1)).unwrap();
    bus.send(midi(2)).unwrap();
    let events = bus.try_recv_all();
    let inp: Vec<i64> = vec![0; 4];
    let mut out: Vec<i64> = vec![0; 4];
    rt.tick(48000, &events, &inp, &mut out);
    // The counter reaches 2 before the block resolves:
    // clamp(100 + 5 * 2) == 110.
    assert_eq!(out, vec![110; 4]);
}

#[test]
fn counter_modulator_saturates_at_max() {
    let (_bus, mut b) = fresh();
    let m = b.use_modulator(Modulator::Counter { count: i64::MAX - 1 });
    let mut rt = b.build(Component::Identity);
    let events = [midi(1), midi(2), midi(3)];
    let inp: Vec<i64> = vec![0; 1];
    let mut out: Vec<i64> = vec![0; 1];
    rt.tick(48000, &events, &inp, &mut out);
    assert_eq!(*rt.get_source_mut(m), Modulator::Counter { count: i64::MAX });
}

#[test]
fn constant_modulator_ignores_events_and_index() {
    let mut m = Modulator::Constant { value: 42 };
    m.update(48000, &[midi(1), midi(2)]);
    assert_eq!(m.get_value(0), 42);
    assert_eq!(m.get_value(255), 42);
}

#[test]
fn counter_modulator_counts_per_update() {
    let mut m = Modulator::Counter { count: 0 };
    m.update(48000, &[midi(1), midi(2)]);
    assert_eq!(m.get_value(7), 2);
    let none: [Event; 0] = [];
    m.update(48000, &none);
    assert_eq!(m.get_value(0), 2);
    m.update(48000, &[midi(5)]);
    assert_eq!(m.get_value(0), 3);
}
