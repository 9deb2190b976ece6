use boids::neighbors::find_near;
use boids::universe::{pointer_active, Universe};

#[test]
fn new_world_is_empty() {
    let u: Universe<u32> = Universe::new(800, 600);
    assert_eq!(u.width(), 800);
    assert_eq!(u.height(), 600);
    assert_eq!(u.count(), 0);
    assert_eq!(u.get_boid(0), None);
}

#[test]
fn get_boid_past_the_end_fails_and_earlier_indices_follow_creation_order() {
    let mut u: Universe<(u32, u32)> = Universe::new(100, 100);
    let n: usize = 5;
    for k in 0..n {
        u.create_boid((k as u32, 10 * k as u32));
    }
    assert_eq!(u.count(), n);
    for k in 0..n {
        assert_eq!(u.get_boid(k), Some((k as u32, 10 * k as u32)));
    }
    assert_eq!(u.get_boid(n), None);
    assert_eq!(u.get_boid(usize::MAX), None);
}

#[test]
fn resize_keeps_agents() {
    let mut u: Universe<i32> = Universe::new(10, 20);
    u.create_boid(-3);
    u.create_boid(40);
    u.resize(30, 5);
    assert_eq!(u.width(), 30);
    assert_eq!(u.height(), 5);
    assert_eq!(u.count(), 2);
    assert_eq!(u.get_boid(0), Some(-3));
    assert_eq!(u.get_boid(1), Some(40));
}

#[test]
fn tick_steps_every_agent_from_the_pre_tick_flock() {
    // Each agent moves to the sum of all pre-tick positions plus itself.
    // Stepped in place, the second agent would see the first one's new value.
    let mut u: Universe<i64> = Universe::new(100, 100);
    u.create_boid(1);
    u.create_boid(2);
    u.create_boid(4);
    u.tick(0, 0, |b: &i64, all: &Vec<i64>, _w: u16, _h: u16, _mx: u16, _my: u16| {
        b + all.iter().sum::<i64>()
    });
    assert_eq!(u.get_boid(0), Some(8));
    assert_eq!(u.get_boid(1), Some(9));
    assert_eq!(u.get_boid(2), Some(11));
    assert_eq!(u.count(), 3);
}

#[test]
fn tick_hands_bounds_and_pointer_to_each_step() {
    let mut u: Universe<(u16, u16, u16, u16)> = Universe::new(640, 480);
    u.create_boid((0, 0, 0, 0));
    u.resize(320, 240);
    u.tick(7, 9, |_b: &(u16, u16, u16, u16), _all: &Vec<(u16, u16, u16, u16)>, w: u16, h: u16, mx: u16, my: u16| {
        (w, h, mx, my)
    });
    assert_eq!(u.get_boid(0), Some((320, 240, 7, 9)));
    assert_eq!(u.width(), 320);
}

#[test]
fn tick_on_empty_world_does_nothing() {
    let mut u: Universe<u8> = Universe::new(1, 1);
    u.tick(3, 3, |b: &u8, _all: &Vec<u8>, _w: u16, _h: u16, _mx: u16, _my: u16| *b);
    assert_eq!(u.count(), 0);
}

#[test]
fn find_near_keeps_accepted_agents_in_order() {
    let all: Vec<i32> = vec![5, -2, 7, 3, 9, 3];
    let near = find_near(&all, |b: &i32| *b > 2 && *b < 9);
    assert_eq!(near, vec![5, 7, 3, 3]);
    assert_eq!(all, vec![5, -2, 7, 3, 9, 3]);
}

#[test]
fn find_near_with_no_accepted_agent_is_empty() {
    let all: Vec<i32> = vec![1, 2, 3];
    assert_eq!(find_near(&all, |_b: &i32| false), Vec::<i32>::new());
    let none: Vec<i32> = Vec::new();
    assert_eq!(find_near(&none, |_b: &i32| true), Vec::<i32>::new());
}

#[test]
fn find_near_box_test_excludes_self_by_value() {
    // Agents as (x, y, heading); the querying agent is (10, 10, 0).
    let me = (10i32, 10i32, 0i32);
    let radius = 5i32;
    let all = vec![me, (10, 10, 0), (10, 10, 1), (14, 14, 0), (15, 10, 0), (6, 7, 2)];
    let near = find_near(&all, |b: &(i32, i32, i32)| {
        let close_x = b.0 < me.0 + radius && b.0 > me.0 - radius;
        let close_y = b.1 < me.1 + radius && b.1 > me.1 - radius;
        close_x && close_y && *b != me
    });
    // (14, 14) is about 5.66 away, yet inside the box; (15, 10) is on its edge.
    assert_eq!(near, vec![(10, 10, 1), (14, 14, 0), (6, 7, 2)]);
}

#[test]
fn pointer_at_origin_is_inactive() {
    assert!(!pointer_active(0, 0));
    assert!(pointer_active(1, 0));
    assert!(pointer_active(0, 1));
    assert!(pointer_active(400, 300));
    assert!(pointer_active(u16::MAX, u16::MAX));
}
