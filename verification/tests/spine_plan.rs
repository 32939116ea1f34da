use fish_pond::spine::{relax_plan, SpineStep, MIN_POINTS, TAIL_POINTS};

fn moved(step: &SpineStep) -> usize {
    match *step {
        SpineStep::Length { joint } => joint,
        SpineStep::Angle { joint } => joint + 1,
        SpineStep::Wave { point, .. } => point,
    }
}

fn lowest_read(step: &SpineStep) -> usize {
    match *step {
        SpineStep::Length { joint } => joint - 1,
        SpineStep::Angle { joint } => joint - 1,
        SpineStep::Wave { point, .. } => point - 1,
    }
}

fn highest_read(step: &SpineStep) -> usize {
    match *step {
        SpineStep::Length { joint } => joint,
        SpineStep::Angle { joint } => joint + 1,
        SpineStep::Wave { point, .. } => point,
    }
}

#[test]
fn limits_are_fifteen_and_sixteen() {
    assert_eq!(TAIL_POINTS, 15);
    assert_eq!(MIN_POINTS, 16);
}

#[test]
fn plan_of_the_shortest_spine_is_exact() {
    let plan = relax_plan(16);
    let mut expected: Vec<SpineStep> = Vec::new();
    expected.push(SpineStep::Length { joint: 1 });
    expected.push(SpineStep::Angle { joint: 1 });
    expected.push(SpineStep::Length { joint: 2 });
    expected.push(SpineStep::Angle { joint: 2 });
    expected.push(SpineStep::Length { joint: 3 });
    expected.push(SpineStep::Angle { joint: 3 });
    expected.push(SpineStep::Length { joint: 4 });
    expected.push(SpineStep::Angle { joint: 4 });
    expected.push(SpineStep::Length { joint: 5 });
    expected.push(SpineStep::Angle { joint: 5 });
    expected.push(SpineStep::Length { joint: 6 });
    expected.push(SpineStep::Angle { joint: 6 });
    expected.push(SpineStep::Length { joint: 7 });
    expected.push(SpineStep::Angle { joint: 7 });
    expected.push(SpineStep::Length { joint: 8 });
    expected.push(SpineStep::Angle { joint: 8 });
    expected.push(SpineStep::Length { joint: 9 });
    expected.push(SpineStep::Angle { joint: 9 });
    expected.push(SpineStep::Length { joint: 10 });
    expected.push(SpineStep::Angle { joint: 10 });
    expected.push(SpineStep::Length { joint: 11 });
    expected.push(SpineStep::Angle { joint: 11 });
    expected.push(SpineStep::Length { joint: 12 });
    expected.push(SpineStep::Angle { joint: 12 });
    expected.push(SpineStep::Length { joint: 13 });
    expected.push(SpineStep::Angle { joint: 13 });
    expected.push(SpineStep::Length { joint: 14 });
    expected.push(SpineStep::Angle { joint: 14 });
    expected.push(SpineStep::Length { joint: 15 });
    for local in 0..15 {
        expected.push(SpineStep::Wave { point: 1 + local, local });
    }
    for joint in 1..16 {
        expected.push(SpineStep::Length { joint });
    }
    assert_eq!(plan, expected);
}

#[test]
fn plan_of_thirty_points_has_101_steps() {
    let plan = relax_plan(30);
    assert_eq!(plan.len(), 101);
    assert_eq!(plan[0], SpineStep::Length { joint: 1 });
    assert_eq!(plan[1], SpineStep::Angle { joint: 1 });
    assert_eq!(plan[55], SpineStep::Angle { joint: 28 });
    assert_eq!(plan[56], SpineStep::Length { joint: 29 });
    assert_eq!(plan[57], SpineStep::Wave { point: 15, local: 0 });
    assert_eq!(plan[71], SpineStep::Wave { point: 29, local: 14 });
    assert_eq!(plan[72], SpineStep::Length { joint: 1 });
    assert_eq!(plan[100], SpineStep::Length { joint: 29 });
}

#[test]
fn last_joint_gets_no_angle_step() {
    for n in 16..40usize {
        let plan = relax_plan(n);
        for step in plan.iter() {
            if let SpineStep::Angle { joint } = *step {
                assert!(joint >= 1 && joint < n - 1);
            }
        }
        let angles = plan.iter().filter(|s| matches!(s, SpineStep::Angle { .. })).count();
        assert_eq!(angles, n - 2);
    }
}

#[test]
fn every_step_stays_on_the_spine_and_off_the_head() {
    for n in 16..80usize {
        let plan = relax_plan(n);
        assert_eq!(plan.len(), 3 * n + 11);
        for step in plan.iter() {
            assert!(highest_read(step) < n);
            assert!(lowest_read(step) < highest_read(step));
            assert!(moved(step) >= 1 && moved(step) < n);
        }
    }
}

#[test]
fn settling_step_is_the_last_to_touch_its_segment() {
    for n in [16usize, 17, 30, 45] {
        let plan = relax_plan(n);
        for joint in 1..n {
            let at = (2 * n - 3) + 15 + joint - 1;
            assert_eq!(plan[at], SpineStep::Length { joint });
            for later in plan[at + 1..].iter() {
                assert_ne!(moved(later), joint);
                assert_ne!(moved(later), joint - 1);
            }
        }
    }
}

#[test]
fn limited_bend_outlasts_the_constraining_pass() {
    for n in [16usize, 30] {
        let plan = relax_plan(n);
        for joint in 1..n - 1 {
            let at = 2 * joint - 1;
            assert_eq!(plan[at], SpineStep::Angle { joint });
            for later in plan[at + 1..2 * n - 3].iter() {
                assert!(moved(later) > joint);
                if moved(later) == joint + 1 {
                    assert_eq!(*later, SpineStep::Length { joint: joint + 1 });
                }
            }
        }
    }
}

#[test]
fn wave_covers_exactly_the_last_fifteen_points_in_order() {
    for n in [16usize, 30, 31] {
        let plan = relax_plan(n);
        let waves: Vec<SpineStep> =
            plan.iter().copied().filter(|s| matches!(s, SpineStep::Wave { .. })).collect();
        assert_eq!(waves.len(), 15);
        for (k, step) in waves.iter().enumerate() {
            assert_eq!(*step, SpineStep::Wave { point: n - 15 + k, local: k });
        }
        assert_eq!(plan[2 * n - 3], waves[0]);
    }
}
