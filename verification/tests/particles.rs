use unit_sim::particles::{
    oldest_system, queue_particle_commands, ParticleSystem, PARTICLE_COMMANDS, PARTICLE_SYSTEMS,
    UNASSIGNED,
};

fn systems(ages: &[f32]) -> Vec<ParticleSystem> {
    ages.iter().map(|age| ParticleSystem { age: age.to_bits(), command_assignment: 7 }).collect()
}

fn ages(systems: &[ParticleSystem]) -> Vec<f32> {
    systems.iter().map(|s| f32::from_bits(s.age)).collect()
}

fn assignments(systems: &[ParticleSystem]) -> Vec<u32> {
    systems.iter().map(|s| s.command_assignment).collect()
}

#[test]
fn particle_limits() {
    assert_eq!(PARTICLE_COMMANDS, 12);
    assert_eq!(PARTICLE_SYSTEMS, 128);
    assert_eq!(UNASSIGNED, u32::MAX);
}

#[test]
fn the_oldest_system_is_the_first_of_the_greatest_age() {
    assert_eq!(oldest_system(&systems(&[1.0, 3.0, 2.0])), 1);
    assert_eq!(oldest_system(&systems(&[1.0, 3.0, 3.0, 2.0])), 1);
    assert_eq!(oldest_system(&systems(&[0.5])), 0);
    assert_eq!(oldest_system(&systems(&[0.0, 0.0, 1.0e-45])), 2);
    assert_eq!(oldest_system(&systems(&[2.0, f32::INFINITY, 9.0, f32::INFINITY])), 1);
}

#[test]
fn with_no_age_above_zero_the_first_system_is_taken() {
    assert_eq!(oldest_system(&systems(&[0.0, 0.0, 0.0])), 0);
    assert_eq!(oldest_system(&systems(&[0.0, -1.0, -0.0])), 0);
    assert_eq!(oldest_system(&systems(&[f32::NAN, -5.0])), 0);
}

#[test]
fn an_age_that_is_not_a_number_is_passed_over() {
    assert_eq!(oldest_system(&systems(&[f32::NAN, 1.0, f32::NAN, 2.0, f32::NAN])), 3);
}

#[test]
fn no_new_command_unassigns_every_system() {
    let mut s = systems(&[1.0, 3.0, 2.0]);
    let taken = queue_particle_commands(&mut s, 0);
    assert_eq!(taken, 0);
    assert_eq!(ages(&s), vec![1.0, 3.0, 2.0]);
    assert_eq!(assignments(&s), vec![UNASSIGNED; 3]);
}

#[test]
fn commands_go_to_the_oldest_systems_in_turn() {
    let mut s = systems(&[1.0, 3.0, 2.0, 0.5]);
    let taken = queue_particle_commands(&mut s, 2);
    assert_eq!(taken, 2);
    assert_eq!(ages(&s), vec![1.0, 0.0, 0.0, 0.5]);
    assert_eq!(assignments(&s), vec![UNASSIGNED, 0, 1, UNASSIGNED]);
}

#[test]
fn more_commands_than_aged_systems_end_on_the_first_system() {
    let mut s = systems(&[1.0, 2.0]);
    let taken = queue_particle_commands(&mut s, 4);
    assert_eq!(taken, 4);
    assert_eq!(ages(&s), vec![0.0, 0.0]);
    // commands 0 and 1 went to systems 1 and 0; 2 and 3 both to system 0
    assert_eq!(assignments(&s), vec![3, 0]);
}

#[test]
fn at_most_twelve_commands_are_taken() {
    let mut s: Vec<ParticleSystem> = (0..PARTICLE_SYSTEMS)
        .map(|i| ParticleSystem { age: (i as f32 + 1.0).to_bits(), command_assignment: 0 })
        .collect();
    let taken = queue_particle_commands(&mut s, 40);
    assert_eq!(taken, 12);
    for (i, system) in s.iter().enumerate() {
        if i < 128 - 12 {
            assert_eq!(system.command_assignment, UNASSIGNED);
            assert_eq!(f32::from_bits(system.age), i as f32 + 1.0);
        } else {
            // the oldest system is the last one and takes command 0
            assert_eq!(system.command_assignment, (127 - i) as u32);
            assert_eq!(system.age, 0);
        }
    }
}

#[test]
fn queue_agrees_with_the_plain_loop() {
    let initial = [0.3f32, 7.5, 0.0, 7.5, 1.0e-3, 12.0, 0.3, 4.0];
    for new_commands in 0..10usize {
        let mut s = systems(&initial);
        queue_particle_commands(&mut s, new_commands);

        let mut expected: Vec<(f32, u32)> = initial.iter().map(|a| (*a, u32::MAX)).collect();
        for n in 0..new_commands {
            let mut oldest = 0;
            let mut oldest_time = 0.0;
            for (i, system) in expected.iter().enumerate() {
                if system.0 > oldest_time {
                    oldest = i;
                    oldest_time = system.0;
                }
            }
            expected[oldest] = (0.0, n as u32);
        }
        let got: Vec<(f32, u32)> =
            s.iter().map(|s| (f32::from_bits(s.age), s.command_assignment)).collect();
        assert_eq!(got, expected, "{new_commands}");
    }
}
