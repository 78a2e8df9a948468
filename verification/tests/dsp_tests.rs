use ceres::new;
use ceres::Branch;
use ceres::Builder;
use ceres::Component;
use ceres::Event;
use ceres::EventBus;
use ceres::Modulator;
use ceres::ParameterHandle;
use ceres::BUFFER_SIZE;
use ceres::PARAM_UNIT;

fn fresh() -> (EventBus<Event>, Builder<i32>) {
    new::<i32, Event>()
}

fn run_block(root: Component, input: &[i64]) -> Vec<i64> {
    let (_bus, b) = fresh();
    let mut rt = b.build(root);
    let inp: Vec<i64> = input.to_vec();
    let mut out: Vec<i64> = vec![0; input.len()];
    let no_events: [Event; 0] = [];
    rt.tick(48000, &no_events, &inp, &mut out);
    out
}

#[test]
fn serial_empty_is_identity() {
    let input = [3, -4, 0, 1_000_000, -77];
    let out = run_block(Component::Serial { stages: vec![] }, &input);
    assert_eq!(out, input.to_vec());
}

#[test]
fn serial_empty_is_identity_for_other_lengths() {
    let input: Vec<i64> = (0..300).map(|i| i * 13 - 600).collect();
    let out = run_block(Component::Serial { stages: vec![] }, &input);
    assert_eq!(out, input);
    let empty: [i64; 0] = [];
    let out = run_block(Component::Serial { stages: vec![] }, &empty);
    assert_eq!(out, Vec::<i64>::new());
}

#[test]
fn serial_single_passthrough_reproduces_input() {
    let input = [5, 6, -7, 8];
    let out = run_block(Component::Serial { stages: vec![Component::Identity] }, &input);
    assert_eq!(out, input.to_vec());
}

#[test]
fn serial_chains_in_order() {
    let input = [1, -2, 3];
    let chain = Component::Serial {
        stages: vec![Component::Gain { weight: 2 }, Component::Gain { weight: 3 }],
    };
    let out = run_block(chain, &input);
    assert_eq!(out, vec![6, -12, 18]);
}

#[test]
fn mix_single_identity_branch_scales_by_weight() {
    let input = [1, -2, 10];
    let mix = Component::Mix {
        branches: vec![Branch { weight: 3, comp: Component::Identity }],
    };
    let out = run_block(mix, &input);
    assert_eq!(out, vec![3, -6, 30]);
}

#[test]
fn mix_two_identity_branches_sum_without_normalization() {
    let input = [1, -2, 10];
    let mix = Component::Mix {
        branches: vec![
            Branch { weight: 2, comp: Component::Identity },
            Branch { weight: 5, comp: Component::Identity },
        ],
    };
    let out = run_block(mix, &input);
    assert_eq!(out, vec![7, -14, 70]);
}

#[test]
fn combinators_nest() {
    let input = [1, 2, -3];
    let graph = Component::Mix {
        branches: vec![
            Branch {
                weight: 1,
                comp: Component::Serial { stages: vec![Component::Gain { weight: 2 }] },
            },
            Branch { weight: 2, comp: Component::Identity },
        ],
    };
    // 1 * (2 x) + 2 * x == 4 x
    let out = run_block(graph, &input);
    assert_eq!(out, vec![4, 8, -12]);
}

#[test]
fn parameter_resolution_formula() {
    let (_bus, mut b) = fresh();
    let m = b.use_modulator(Modulator::Constant { value: 50 });
    let p = b.use_parameters(1, vec![1000]);
    let mut rt = b.build(Component::Identity);
    rt.route(m, p, 0, 3);
    let acc = rt.get_parameters(p);
    // clamp(1000 + 3 * 50) == 1150 at every sample index
    assert_eq!(acc.value(0, 0), 1150);
    assert_eq!(acc.value(0, 100), 1150);
    assert_eq!(acc.value(0, BUFFER_SIZE - 1), 1150);
}

#[test]
fn parameter_resolution_clamps_into_unit_range() {
    let (_bus, mut b) = fresh();
    let m = b.use_modulator(Modulator::Constant { value: 1 });
    let low = b.use_parameters(1, vec![-5]);
    let high = b.use_parameters(2, vec![0]);
    let mut rt = b.build(Component::Identity);
    rt.route(m, high, 0, i64::MAX);
    assert_eq!(rt.get_parameters(low).value(0, 0), 0);
    assert_eq!(rt.get_parameters(high).value(0, 0), PARAM_UNIT);
}

#[test]
fn routing_replacement_last_wins() {
    let (_bus, mut b) = fresh();
    let m = b.use_modulator(Modulator::Constant { value: 50 });
    let p = b.use_parameters(1, vec![1000]);
    let mut rt = b.build(Component::Identity);
    rt.route(m, p, 0, 3);
    rt.route(m, p, 0, 10);
    let acc = rt.get_parameters(p);
    // Only the latest routing matters: clamp(1000 + 10 * 50) == 1500.
    assert_eq!(acc.value(0, 0), 1500);
}

#[test]
fn routing_unknown_field_is_ignored() {
    let (_bus, mut b) = fresh();
    let m = b.use_modulator(Modulator::Constant { value: 50 });
    let p = b.use_parameters(1, vec![1000]);
    let mut rt = b.build(Component::Identity);
    rt.route(m, p, 5, 3);
    let acc = rt.get_parameters(p);
    assert_eq!(acc.value(0, 0), 1000);
}

#[test]
fn routing_to_unregistered_parameter_slot_is_ignored() {
    let (_bus, mut b) = fresh();
    let m = b.use_modulator(Modulator::Constant { value: 50 });
    let p = b.use_parameters(1, vec![1000]);
    let mut rt = b.build(Component::Identity);
    rt.route(m, ParameterHandle { slot: 99 }, 0, 3);
    assert_eq!(rt.get_parameters(p).value(0, 0), 1000);
}

#[test]
fn accessor_indexing_wraps_modulo_block_length() {
    let (_bus, mut b) = fresh();
    let m = b.use_modulator(Modulator::Counter { count: 0 });
    let p = b.use_parameters(1, vec![123]);
    let mut rt = b.build(Component::Identity);
    rt.route(m, p, 0, 1);
    let acc = rt.get_parameters(p);
    for k in [0usize, 1, 17, 255] {
        assert_eq!(acc.value(0, BUFFER_SIZE + k), acc.value(0, k));
        assert_eq!(acc.value(0, 4 * BUFFER_SIZE + k), acc.value(0, k));
    }
}

#[test]
fn modulate_component_writes_resolved_values() {
    let (_bus, mut b) = fresh();
    let m = b.use_modulator(Modulator::Constant { value: 10 });
    let p = b.use_parameters(1, vec![100]);
    let root = Component::Modulate { param: p, field: 0 };
    let mut rt = b.build(root);
    rt.route(m, p, 0, 2);
    let inp: Vec<i64> = vec![5; 8];
    let mut out: Vec<i64> = vec![0; 8];
    let no_events: [Event; 0] = [];
    rt.tick(48000, &no_events, &inp, &mut out);
    // clamp(100 + 2 * 10) == 120, whatever the input holds.
    assert_eq!(out, vec![120; 8]);
}
