use particle_sim::particle::{Appearance, Color, Particle, ParticleEntity, Size2};
use particle_sim::vector::Vector3;
use particle_sim::world::{appearance_of, World};

fn white() -> Appearance {
    Appearance {
        color: Color { red: 1000, green: 1000, blue: 1000, alpha: 1000 },
        size: Size2 { width: 10, height: 10 },
    }
}

fn falling(lifespan: i64) -> Particle {
    Particle {
        velocity: Vector3::new(0, 0, 0),
        acceleration: Vector3::new(0, -98, 0),
        lifespan_remaining: lifespan,
    }
}

#[test]
fn new_world_is_empty() {
    let world = World::new();
    assert_eq!(world.len(), 0);
    assert_eq!(world.upcoming_id(), 0);
    assert_eq!(world.pending_count(), 0);
    assert_eq!(world.get(0), None);
}

#[test]
fn insert_hands_out_rising_handles() {
    let mut world = World::new();
    assert_eq!(world.insert(falling(10), Vector3::new(1, 2, 3), white(), None), Some(0));
    assert_eq!(world.insert(falling(20), Vector3::new(4, 5, 6), white(), Some(0)), Some(1));
    assert_eq!(world.insert(falling(30), Vector3::new(7, 8, 9), white(), None), Some(2));
    assert_eq!(world.len(), 3);
    assert_eq!(world.upcoming_id(), 3);
    assert_eq!(
        world.get(1),
        Some(ParticleEntity {
            id: 1,
            mesh: 0,
            particle: falling(20),
            position: Vector3::new(4, 5, 6),
            appearance: white(),
            pending_removal: false,
        })
    );
    assert_eq!(world.get(2).unwrap().mesh, 2);
    assert_eq!(world.get(3), None);
}

#[test]
fn insert_refuses_a_dead_particle() {
    let mut world = World::new();
    assert_eq!(world.insert(falling(0), Vector3::zero(), white(), None), None);
    assert_eq!(world.insert(falling(-5), Vector3::zero(), white(), None), None);
    assert_eq!(world.len(), 0);
    assert_eq!(world.upcoming_id(), 0);
}

#[test]
fn insert_refuses_a_mesh_not_yet_handed_out() {
    let mut world = World::new();
    assert_eq!(world.insert(falling(5), Vector3::zero(), white(), Some(1)), None);
    assert_eq!(world.insert(falling(5), Vector3::zero(), white(), Some(0)), Some(0));
    assert_eq!(world.len(), 1);
}

#[test]
fn integrate_steps_every_entity() {
    let mut world = World::new();
    world.insert(falling(1_000), Vector3::zero(), white(), None);
    world.insert(
        Particle { velocity: Vector3::new(5, 0, 0), acceleration: Vector3::zero(), lifespan_remaining: 50 },
        Vector3::new(100, 0, 0),
        white(),
        None,
    );
    world.integrate(10);
    let first = world.get(0).unwrap();
    let second = world.get(1).unwrap();
    assert_eq!(first.position, Vector3::new(0, 0, 0));
    assert_eq!(first.particle.velocity, Vector3::new(0, -980, 0));
    assert_eq!(first.particle.lifespan_remaining, 990);
    assert_eq!(second.position, Vector3::new(150, 0, 0));
    assert_eq!(second.particle.lifespan_remaining, 40);
    assert_eq!(world.pending_count(), 0);
    world.integrate(40);
    assert_eq!(world.pending_count(), 1);
    assert!(world.get(1).unwrap().pending_removal);
    assert_eq!(world.get(0).unwrap().position, Vector3::new(0, -980 * 40, 0));
    assert_eq!(world.len(), 2);
}

#[test]
fn integrate_leaves_the_tagged_alone() {
    let mut world = World::new();
    world.insert(
        Particle { velocity: Vector3::new(1, 1, 1), acceleration: Vector3::new(1, 1, 1), lifespan_remaining: 5 },
        Vector3::zero(),
        white(),
        None,
    );
    world.integrate(5);
    let tagged = world.get(0).unwrap();
    assert!(tagged.pending_removal);
    world.integrate(1_000);
    assert_eq!(world.get(0), Some(tagged));
}

#[test]
fn reap_removes_the_tagged_and_keeps_the_order() {
    let mut world = World::new();
    world.insert(falling(10), Vector3::zero(), white(), None);
    world.insert(falling(100), Vector3::zero(), white(), None);
    world.insert(falling(5), Vector3::zero(), white(), None);
    world.insert(falling(200), Vector3::zero(), white(), None);
    world.integrate(10);
    assert_eq!(world.pending_count(), 2);
    assert_eq!(world.len(), 4);
    let removed = world.reap();
    assert_eq!(removed, vec![0, 2]);
    assert_eq!(world.len(), 2);
    assert_eq!(world.get(0).unwrap().id, 1);
    assert_eq!(world.get(1).unwrap().id, 3);
    assert_eq!(world.pending_count(), 0);
    assert_eq!(world.upcoming_id(), 4);
}

#[test]
fn reap_twice_removes_each_entity_once() {
    let mut world = World::new();
    world.insert(falling(10), Vector3::zero(), white(), None);
    world.insert(falling(20), Vector3::zero(), white(), None);
    world.integrate(10);
    assert_eq!(world.reap(), vec![0]);
    let left = world.get(0);
    assert_eq!(world.reap(), Vec::<u64>::new());
    assert_eq!(world.len(), 1);
    assert_eq!(world.get(0), left);
}

#[test]
fn reap_on_an_empty_world() {
    let mut world = World::new();
    assert_eq!(world.reap(), Vec::<u64>::new());
    assert_eq!(world.len(), 0);
}

#[test]
fn handles_are_not_reused_after_a_reap() {
    let mut world = World::new();
    world.insert(falling(1), Vector3::zero(), white(), None);
    world.integrate(1);
    world.reap();
    assert_eq!(world.insert(falling(1), Vector3::zero(), white(), None), Some(1));
}

#[test]
fn mesh_is_in_use_while_an_entity_refers_to_it() {
    let mut world = World::new();
    world.insert(falling(10), Vector3::zero(), white(), None);
    world.insert(falling(20), Vector3::zero(), white(), Some(0));
    world.insert(falling(10), Vector3::zero(), white(), None);
    assert!(world.mesh_in_use(0));
    assert!(world.mesh_in_use(2));
    assert!(!world.mesh_in_use(1));
    world.integrate(10);
    world.reap();
    assert!(world.mesh_in_use(0));
    assert!(!world.mesh_in_use(2));
    world.integrate(10);
    world.reap();
    assert!(!world.mesh_in_use(0));
}

#[test]
fn appearance_pass_changes_nothing() {
    let mut world = World::new();
    world.insert(falling(10), Vector3::new(1, 2, 3), white(), None);
    world.insert(falling(20), Vector3::new(4, 5, 6), white(), None);
    world.integrate(10);
    let before = [world.get(0), world.get(1)];
    world.sync_appearance();
    assert_eq!([world.get(0), world.get(1)], before);
    assert_eq!(world.len(), 2);
    assert_eq!(appearance_of(&falling(3), white()), white());
}

#[test]
fn ten_particles_live_five_seconds() {
    let mut world = World::new();
    for _ in 0..10 {
        world.insert(falling(5_000), Vector3::zero(), white(), Some(0));
    }
    let mut tagged_at = vec![0u32; 10];
    for tick in 1..=50u32 {
        world.integrate(100);
        for i in 0..10 {
            if world.get(i).unwrap().pending_removal && tagged_at[i] == 0 {
                tagged_at[i] = tick;
            }
        }
        if tick < 50 {
            assert_eq!(world.pending_count(), 0);
        }
    }
    assert_eq!(tagged_at, vec![50u32; 10]);
    assert_eq!(world.pending_count(), 10);
    assert_eq!(world.len(), 10);
    let removed = world.reap();
    assert_eq!(removed, vec![0, 1, 2, 3, 4, 5, 6, 7, 8, 9]);
    assert_eq!(world.len(), 0);
    assert_eq!(world.reap(), Vec::<u64>::new());
}
