use lorenz::dynamics::{euler_step, lorenz_derivatives, Parameters, State};
use lorenz::simulator::Simulator;

fn classic(dt: f64, steps: i32) -> Simulator<f64> {
    Simulator::initialize(10.0, 28.0, 8.0 / 3.0, 1.0, 1.0, 1.0, dt, steps)
}

fn bits(state: &State<f64>) -> (u64, u64, u64) {
    (state.x.to_bits(), state.y.to_bits(), state.z.to_bits())
}

#[test]
fn derivatives_at_the_unit_point() {
    let d = lorenz_derivatives(1.0f64, 1.0, 1.0, 10.0, 28.0, 8.0 / 3.0);
    assert_eq!(d[0], 0.0);
    assert_eq!(d[1], 26.0);
    assert_eq!(d[2], -1.6666666666666665);
}

#[test]
fn derivatives_follow_the_three_formulas() {
    // dx = 10 * (3 - 1), dy = 1 * (28 - 2) - 3, dz = 1 * 3 - 2 * 2
    let d = lorenz_derivatives(1i64, 3, 2, 10, 28, 2);
    assert_eq!(d, [20, 23, -1]);
}

#[test]
fn derivatives_tell_the_arguments_apart() {
    // every argument has its own value, so a swapped pair would show
    let d = lorenz_derivatives(2i64, 3, 5, 7, 11, 13);
    assert_eq!(d[0], 7 * (3 - 2));
    assert_eq!(d[1], 2 * (11 - 5) - 3);
    assert_eq!(d[2], 2 * 3 - 13 * 5);
    assert_eq!(d, [7, 9, -59]);
}

#[test]
fn euler_step_adds_rate_times_step() {
    let params = Parameters { sigma: 10i64, rho: 28, beta: 2 };
    let next = euler_step(State { x: 1, y: 3, z: 2 }, &params, 2);
    assert_eq!(next, State { x: 41, y: 49, z: 0 });
}

#[test]
fn euler_step_uses_the_rates_of_the_old_state() {
    // after x has moved, y and z are still computed from the old x
    let params = Parameters { sigma: 1i64, rho: 0, beta: 0 };
    let next = euler_step(State { x: 0, y: 5, z: 0 }, &params, 1);
    assert_eq!(next, State { x: 5, y: 0, z: 0 });
}

#[test]
fn initialize_keeps_every_value() {
    let sim = Simulator::initialize(1i64, 2, 3, 4, 5, 6, 7, 8);
    assert_eq!(sim.parameters, Parameters { sigma: 1, rho: 2, beta: 3 });
    assert_eq!(sim.initial, State { x: 4, y: 5, z: 6 });
    assert_eq!(sim.dt, 7);
    assert_eq!(sim.steps, 8);
}

#[test]
fn one_step_gives_an_empty_trajectory() {
    assert!(classic(0.01, 1).run().is_empty());
    assert!(Simulator::initialize(-3.5f64, 0.0, 1e300, f64::MAX, -0.0, 7.0, 2.0, 1).run().is_empty());
}

#[test]
fn step_count_n_gives_n_minus_one_states() {
    assert_eq!(classic(0.01, 2).run().len(), 1);
    assert_eq!(classic(0.01, 3).run().len(), 2);
    assert_eq!(classic(0.01, 10).run().len(), 9);
    assert_eq!(classic(0.01, 1000).run().len(), 999);
}

#[test]
fn zero_or_negative_step_count_gives_an_empty_trajectory() {
    assert!(classic(0.01, 0).run().is_empty());
    assert!(classic(0.01, -1).run().is_empty());
    assert!(classic(0.01, i32::MIN).run().is_empty());
}

#[test]
fn first_state_is_one_euler_step_from_the_start() {
    let trajectory = classic(0.01, 2).run();
    assert_eq!(trajectory.len(), 1);
    let first = trajectory[0];
    assert_eq!(first.x, 1.0);
    assert_eq!(first.y, 1.26);
    assert_eq!(first.z, 0.9833333333333333);
    assert!((first.z - 0.98333).abs() < 1e-5);
    let params = Parameters { sigma: 10.0, rho: 28.0, beta: 8.0 / 3.0 };
    let stepped = euler_step(State { x: 1.0, y: 1.0, z: 1.0 }, &params, 0.01);
    assert_eq!(bits(&first), bits(&stepped));
}

#[test]
fn later_states_follow_one_another() {
    let trajectory = classic(0.01, 4).run();
    assert_eq!(trajectory.len(), 3);
    assert_eq!(trajectory[1], State { x: 1.026, y: 1.5175666666666667, z: 0.9697111111111111 });
    assert_eq!(trajectory[2], State { x: 1.0751566666666668, y: 1.779721764, z: 0.9594223821481481 });
    let sim = classic(0.01, 200);
    let long = sim.run();
    for i in 1..long.len() {
        let stepped = euler_step(long[i - 1], &sim.parameters, sim.dt);
        assert_eq!(bits(&long[i]), bits(&stepped));
    }
}

#[test]
fn integer_trajectory_is_exact() {
    let sim = Simulator::initialize(10i64, 28, 2, 1, 3, 2, 1, 3);
    let trajectory = sim.run();
    assert_eq!(trajectory, vec![State { x: 21, y: 26, z: 1 }, State { x: 71, y: 567, z: 545 }]);
}

#[test]
fn last_state_of_the_classic_run() {
    let trajectory = classic(0.01, 1000).run();
    let last = trajectory[998];
    assert_eq!(bits(&last), (4621345933294221983, 4618921685393938991, 4629406885154017975));
    assert_eq!(last, State { x: 9.159455841724876, y: 6.426563251827743, z: 30.95716561989931 });
}

#[test]
fn two_runs_are_bit_identical() {
    let first = classic(0.01, 1000).run();
    let second = classic(0.01, 1000).run();
    assert_eq!(first.len(), second.len());
    for i in 0..first.len() {
        assert_eq!(bits(&first[i]), bits(&second[i]));
    }
    let sim = classic(0.01, 50);
    let again = sim.run();
    let once_more = sim.run();
    assert_eq!(again, once_more);
}

#[test]
fn run_leaves_the_simulator_as_it_was() {
    let sim = classic(0.01, 20);
    let before = sim;
    let _ = sim.run();
    assert_eq!(sim, before);
}

#[test]
fn zero_step_size_gives_a_constant_trajectory() {
    let trajectory = classic(0.0, 100).run();
    assert_eq!(trajectory.len(), 99);
    for state in &trajectory {
        assert_eq!(bits(state), bits(&State { x: 1.0, y: 1.0, z: 1.0 }));
    }
    let whole = Simulator::initialize(10i64, 28, 2, 1, 3, 2, 0, 6).run();
    assert_eq!(whole, vec![State { x: 1, y: 3, z: 2 }; 5]);
}

#[test]
fn divergence_is_passed_on_in_silence() {
    let trajectory = Simulator::initialize(10.0f64, 28.0, 8.0 / 3.0, 1.0, 1.0, 1.0, 1e200, 6).run();
    assert_eq!(trajectory.len(), 5);
    assert!(!trajectory[4].x.is_finite());
}

#[test]
fn a_fixed_point_stays_where_it_is() {
    let trajectory = Simulator::initialize(10.0f64, 28.0, 8.0 / 3.0, 0.0, 0.0, 0.0, 0.01, 10).run();
    assert_eq!(trajectory.len(), 9);
    for state in &trajectory {
        assert_eq!(*state, State { x: 0.0, y: 0.0, z: 0.0 });
    }
}

#[test]
fn zero_step_size_does_not_hide_overflow() {
    // y - x overflows to an infinity, and an infinity times zero is no number
    let trajectory = Simulator::initialize(10.0f64, 0.0, 0.0, 1e308, -1e308, 1.0, 0.0, 3).run();
    assert_eq!(trajectory.len(), 2);
    assert!(trajectory[0].x.is_nan());
    // dy = x * (0 - 1) - y = 0 stays finite, so y is kept
    assert_eq!(trajectory[0].y, -1e308);
    // dz = x * y - 0 * z overflows as well
    assert!(trajectory[0].z.is_nan());
}

#[test]
fn derivatives_of_equal_arguments_are_bit_identical() {
    let cases: [[f64; 6]; 5] = [
        [1.0, 1.0, 1.0, 10.0, 28.0, 8.0 / 3.0],
        [-0.0, 0.0, 5e-324, 10.0, 28.0, 8.0 / 3.0],
        [1e308, -1e308, 3.5, 10.0, 28.0, 8.0 / 3.0],
        [9.159455841724876, 6.426563251827743, 30.95716561989931, 10.0, 28.0, 8.0 / 3.0],
        [-2.5, 1e-200, 7.0, -3.0, 0.0, 1e150],
    ];
    for c in cases {
        let first = lorenz_derivatives(c[0], c[1], c[2], c[3], c[4], c[5]);
        let second = lorenz_derivatives(c[0], c[1], c[2], c[3], c[4], c[5]);
        for k in 0..3 {
            assert_eq!(first[k].to_bits(), second[k].to_bits());
        }
    }
}

#[test]
fn zero_step_size_keeps_every_finite_state() {
    let starts: [(f64, f64, f64); 4] =
        [(1.0, 1.0, 1.0), (-0.0, 0.0, -0.0), (-8.5, 1e10, 3e-9), (1e100, -1e100, 1e-100)];
    for (x0, y0, z0) in starts {
        let d = lorenz_derivatives(x0, y0, z0, 10.0, 28.0, 8.0 / 3.0);
        assert!(x0 + d[0] * 0.0 == x0);
        assert!(y0 + d[1] * 0.0 == y0);
        assert!(z0 + d[2] * 0.0 == z0);
        let trajectory = Simulator::initialize(10.0, 28.0, 8.0 / 3.0, x0, y0, z0, 0.0, 8).run();
        assert_eq!(trajectory.len(), 7);
        for state in &trajectory {
            assert!(state.x == x0 && state.y == y0 && state.z == z0);
        }
    }
}

#[test]
fn a_run_of_no_step_applies_no_operator() {
    // with these values every operator of a step would overflow a whole number
    let sim = Simulator::initialize(i64::MAX, i64::MIN, i64::MAX, i64::MAX, i64::MIN, i64::MAX, i64::MAX, 1);
    assert!(sim.run().is_empty());
    let none = Simulator::initialize(i64::MAX, i64::MIN, i64::MAX, i64::MAX, i64::MIN, i64::MAX, i64::MAX, -4);
    assert!(none.run().is_empty());
}
