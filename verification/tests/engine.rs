use gameprng::prng_traits::PrngSeeding;
use gameprng::xorshift128plus::XorShift128Plus;
use grimoire::drawable::DrawableBuilder;
use grimoire::drawable::DrawableSystem;
use grimoire::entity::Entity;
use grimoire::entity::EntityManager;
use grimoire::fixed::fx_add;
use grimoire::fixed::fx_div;
use grimoire::fixed::fx_mul;
use grimoire::fixed::fx_sub;
use grimoire::fixed::FX_ONE;
use grimoire::health::HealthBuilder;
use grimoire::health::HealthSystem;
use grimoire::math::Quatfx;
use grimoire::math::Vec3fx;
use grimoire::model_codec::decode_model;
use grimoire::model_codec::encode_model;
use grimoire::model_codec::Vertex;
use grimoire::particle_emitter::ParticleEmitterBuilder;
use grimoire::particle_emitter::ParticleEmitterSystem;
use grimoire::range::Range;
use grimoire::rigid_body::RigidBody;
use grimoire::rigid_body::RigidBodyBuilder;
use grimoire::rigid_body::RigidBodySystem;
use grimoire::rigid_body::PHYSICS_STEP;
use grimoire::transformation::TransformationBuilder;
use grimoire::transformation::TransformationSystem;
use grimoire::SearchDirection2D;

fn fx(units: i64) -> i64 {
    units * FX_ONE
}

#[test]
fn entity_alive_after_create_dead_after_destroy() {
    let mut em = EntityManager::new();
    let e = em.create_new_entity();
    assert!(em.entity_is_alive(&e));
    assert!(em.entity_is_active(&e));
    em.destroy_entity(&e);
    assert!(!em.entity_is_alive(&e));
}

#[test]
fn entity_reused_index_never_aliases_old_handle() {
    let mut em = EntityManager::new();
    let mut first_batch: Vec<Entity> = Vec::new();
    // enough churn that the free queue passes the reuse threshold
    for _ in 0..1100 {
        first_batch.push(em.create_new_entity());
    }
    for e in first_batch.iter() {
        em.destroy_entity(e);
    }
    for e in first_batch.iter() {
        assert!(!em.entity_is_alive(e));
    }
    // the next creation reuses the oldest destroyed index
    let reused = em.create_new_entity();
    assert_eq!(reused.index(), first_batch[0].index());
    assert!(em.entity_is_alive(&reused));
    assert!(!em.entity_is_alive(&first_batch[0]));
    assert_ne!(reused.generation(), first_batch[0].generation());
}

#[test]
fn entity_packing_round_trip() {
    let e = Entity::new(123456, 77);
    assert_eq!(e.index(), 123456);
    assert_eq!(e.generation(), 77);
    let nul = Entity::null();
    assert_eq!(nul.index(), 0);
    assert_eq!(nul.generation(), 0);
}

#[test]
fn entity_active_flag_toggles_independently_of_aliveness() {
    let mut em = EntityManager::new();
    let e = em.create_new_entity();
    em.set_entity_is_active(&e, false);
    assert!(!em.entity_is_active(&e));
    assert!(em.entity_is_alive(&e));
    em.toggle_entity_is_active(&e);
    assert!(em.entity_is_active(&e));
}

#[test]
fn component_store_swap_removal_keeps_other_records() {
    let mut em = EntityManager::new();
    let mut ts = TransformationSystem::new();
    let a = em.create_new_entity();
    let b = em.create_new_entity();
    let c = em.create_new_entity();
    ts.add_transformation_to_entity(&a, TransformationBuilder::new().at_position(Vec3fx::new(fx(1), 0, 0)));
    ts.add_transformation_to_entity(&b, TransformationBuilder::new().at_position(Vec3fx::new(fx(2), 0, 0)));
    ts.add_transformation_to_entity(&c, TransformationBuilder::new().at_position(Vec3fx::new(fx(3), 0, 0)));
    ts.remove_transformation_from_entity(&b);
    assert!(!ts.entity_has_transformation(&b));
    assert!(ts.entity_has_transformation(&a));
    assert!(ts.entity_has_transformation(&c));
    assert_eq!(ts.get_position(&a).unwrap(), Vec3fx::new(fx(1), 0, 0));
    assert_eq!(ts.get_position(&c).unwrap(), Vec3fx::new(fx(3), 0, 0));
    assert_eq!(ts.get_position(&b), None);
}

#[test]
fn health_store_round_trip() {
    let mut em = EntityManager::new();
    let mut hs = HealthSystem::new();
    let a = em.create_new_entity();
    let b = em.create_new_entity();
    let c = em.create_new_entity();
    hs.add_health_to_entity(&a, HealthBuilder::new().with_hitpoints((fx(3), fx(5))));
    hs.add_health_to_entity(&b, HealthBuilder::new());
    hs.add_health_to_entity(&c, HealthBuilder::new().with_hitpoints((fx(9), fx(9))));
    hs.remove_health_from_entity(&b);
    assert!(!hs.entity_has_health(&b));
    assert_eq!(hs.get_hitpoints(&a).unwrap(), (fx(3), fx(5)));
    assert_eq!(hs.get_hitpoints(&c).unwrap(), (fx(9), fx(9)));
    // adding twice is a silent no-op
    hs.add_health_to_entity(&a, HealthBuilder::new().with_hitpoints((fx(1), fx(1))));
    assert_eq!(hs.get_hitpoints(&a).unwrap(), (fx(3), fx(5)));
}

#[test]
fn health_defaults_to_one_full_point() {
    let mut em = EntityManager::new();
    let mut hs = HealthSystem::new();
    let a = em.create_new_entity();
    hs.add_health_to_entity(&a, HealthBuilder::new());
    assert_eq!(hs.get_hitpoints(&a).unwrap(), (FX_ONE, FX_ONE));
}

#[test]
fn health_overheal_clamps_on_update() {
    let mut em = EntityManager::new();
    let mut hs = HealthSystem::new();
    let a = em.create_new_entity();
    hs.add_health_to_entity(&a, HealthBuilder::new().with_hitpoints((fx(2), fx(2))));
    hs.heal(&a, fx(5));
    assert_eq!(hs.get_hitpoints(&a).unwrap(), (fx(7), fx(2)));
    hs.update(&mut em);
    assert_eq!(hs.get_hitpoints(&a).unwrap(), (fx(2), fx(2)));
    assert!(em.entity_is_alive(&a));
}

#[test]
fn health_kill_destroys_on_next_update_not_instantly() {
    let mut em = EntityManager::new();
    let mut hs = HealthSystem::new();
    let a = em.create_new_entity();
    hs.add_health_to_entity(&a, HealthBuilder::new().with_hitpoints((fx(1), fx(1))));
    hs.harm(&a, fx(4));
    // harming to zero or below does not destroy immediately
    assert!(em.entity_is_alive(&a));
    hs.update(&mut em);
    assert!(!em.entity_is_alive(&a));
}

#[test]
fn health_kill_entity_marks_minimum() {
    let mut em = EntityManager::new();
    let mut hs = HealthSystem::new();
    let a = em.create_new_entity();
    hs.add_health_to_entity(&a, HealthBuilder::new().with_hitpoints((fx(10), fx(10))));
    hs.kill_entity(&a);
    assert_eq!(hs.get_hitpoints(&a).unwrap().0, i64::MIN);
    assert!(em.entity_is_alive(&a));
    hs.update(&mut em);
    assert!(!em.entity_is_alive(&a));
}

fn body_at_rest(extents: Vec3fx) -> RigidBody {
    RigidBody {
        owner: Entity::null(),
        offset: Vec3fx::new(0, 0, 0),
        extents,
        velocity: Vec3fx::new(0, 0, 0),
        locomotion: Vec3fx::new(0, 0, 0),
        elasticity: 0,
        inv_mass: FX_ONE,
        gravity_immune: false,
        foothold: false,
        damage: 0,
        die_on_collision: false,
    }
}

#[test]
fn collision_symmetry_unit_boxes() {
    let a = body_at_rest(Vec3fx::new(fx(1), fx(1), fx(1)));
    let b = body_at_rest(Vec3fx::new(fx(1), fx(1), fx(1)));
    let pa = Vec3fx::new(0, 0, 0);
    let pb = Vec3fx::new(fx(1) + FX_ONE / 2, 0, 0);

    let m = a.colliding(&b, (pa, pb)).unwrap();
    assert_eq!(m.penetration, FX_ONE / 2);
    assert_eq!(m.normal, Vec3fx::new(FX_ONE, 0, 0));

    let m2 = b.colliding(&a, (pb, pa)).unwrap();
    assert_eq!(m2.penetration, FX_ONE / 2);
    assert_eq!(m2.normal, Vec3fx::new(-FX_ONE, 0, 0));
}

#[test]
fn collision_none_when_separated() {
    let a = body_at_rest(Vec3fx::new(fx(1), fx(1), fx(1)));
    let b = body_at_rest(Vec3fx::new(fx(1), fx(1), fx(1)));
    let pa = Vec3fx::new(0, 0, 0);
    let pb = Vec3fx::new(fx(3), 0, 0);
    assert!(a.colliding(&b, (pa, pb)).is_none());
}

#[test]
fn rigid_body_builder_defaults() {
    let mut em = EntityManager::new();
    let mut ts = TransformationSystem::new();
    let mut rbs = RigidBodySystem::new();
    let a = em.create_new_entity();
    ts.add_transformation_to_entity(&a, TransformationBuilder::new());
    rbs.add_rigid_body_to_entity(&a, RigidBodyBuilder::new(), &ts);
    assert!(rbs.entity_has_rigid_body(&a));
    assert_eq!(rbs.get_extents(&a).unwrap(), Vec3fx::new(FX_ONE / 2, FX_ONE / 2, FX_ONE / 2));
    assert_eq!(rbs.get_velocity(&a).unwrap(), Vec3fx::new(0, 0, 0));
}

#[test]
fn rigid_body_requires_transformation() {
    let mut em = EntityManager::new();
    let mut ts = TransformationSystem::new();
    let mut rbs = RigidBodySystem::new();
    let a = em.create_new_entity();
    rbs.add_rigid_body_to_entity(&a, RigidBodyBuilder::new(), &ts);
    assert!(!rbs.entity_has_rigid_body(&a));
}

#[test]
fn impulse_conservation_head_on_equal_masses() {
    let mut em = EntityManager::new();
    let mut ts = TransformationSystem::new();
    let mut rbs = RigidBodySystem::new();
    let mut hs = HealthSystem::new();

    let a = em.create_new_entity();
    let b = em.create_new_entity();
    ts.add_transformation_to_entity(&a, TransformationBuilder::new().at_position(Vec3fx::new(0, 0, 0)));
    ts.add_transformation_to_entity(&b, TransformationBuilder::new().at_position(Vec3fx::new(fx(1) + FX_ONE / 2, 0, 0)));
    rbs.add_rigid_body_to_entity(
        &a,
        RigidBodyBuilder::new()
            .with_extents(Vec3fx::new(fx(1), fx(1), fx(1)))
            .with_mass(FX_ONE)
            .with_elasticity(0)
            .is_gravity_immune()
            .with_velocity(Vec3fx::new(fx(1), 0, 0)),
        &ts,
    );
    rbs.add_rigid_body_to_entity(
        &b,
        RigidBodyBuilder::new()
            .with_extents(Vec3fx::new(fx(1), fx(1), fx(1)))
            .with_mass(FX_ONE)
            .with_elasticity(0)
            .is_gravity_immune()
            .with_velocity(Vec3fx::new(-fx(1), 0, 0)),
        &ts,
    );

    rbs.update(PHYSICS_STEP, &mut ts, &mut hs);

    let va = rbs.get_velocity(&a).unwrap();
    let vb = rbs.get_velocity(&b).unwrap();
    // perfectly inelastic: the post-collision relative velocity along the
    // x-axis normal is exactly zero
    assert_eq!(vb.x - va.x, 0);
}

#[test]
fn head_on_collision_conserves_momentum() {
    let mut em = EntityManager::new();
    let mut ts = TransformationSystem::new();
    let mut rbs = RigidBodySystem::new();
    let mut hs = HealthSystem::new();

    let a = em.create_new_entity();
    let b = em.create_new_entity();
    ts.add_transformation_to_entity(&a, TransformationBuilder::new().at_position(Vec3fx::new(0, 0, 0)));
    ts.add_transformation_to_entity(&b, TransformationBuilder::new().at_position(Vec3fx::new(fx(1) + FX_ONE / 2, 0, 0)));
    rbs.add_rigid_body_to_entity(
        &a,
        RigidBodyBuilder::new()
            .with_extents(Vec3fx::new(fx(1), fx(1), fx(1)))
            .with_mass(FX_ONE)
            .is_gravity_immune()
            .with_velocity(Vec3fx::new(fx(3), 0, 0)),
        &ts,
    );
    rbs.add_rigid_body_to_entity(
        &b,
        RigidBodyBuilder::new()
            .with_extents(Vec3fx::new(fx(1), fx(1), fx(1)))
            .with_mass(FX_ONE)
            .is_gravity_immune()
            .with_velocity(Vec3fx::new(-fx(1), 0, 0)),
        &ts,
    );

    rbs.update(PHYSICS_STEP, &mut ts, &mut hs);

    let va = rbs.get_velocity(&a).unwrap();
    let vb = rbs.get_velocity(&b).unwrap();
    // equal masses: the velocity sum is conserved exactly
    assert_eq!(va.x + vb.x, fx(3) - fx(1));
    assert_eq!(va.y + vb.y, 0);
}

#[test]
fn resting_contact_takes_no_impulse_correction_or_damage() {
    let mut em = EntityManager::new();
    let mut ts = TransformationSystem::new();
    let mut rbs = RigidBodySystem::new();
    let mut hs = HealthSystem::new();

    let wall = em.create_new_entity();
    let body = em.create_new_entity();
    ts.add_transformation_to_entity(&wall, TransformationBuilder::new().at_position(Vec3fx::new(0, 0, 0)));
    ts.add_transformation_to_entity(&body, TransformationBuilder::new().at_position(Vec3fx::new(FX_ONE / 2, 0, 0)));
    rbs.add_rigid_body_to_entity(
        &wall,
        RigidBodyBuilder::new().dealing_damage(fx(2)).is_gravity_immune(),
        &ts,
    );
    rbs.add_rigid_body_to_entity(
        &body,
        RigidBodyBuilder::new().with_mass(FX_ONE).is_gravity_immune(),
        &ts,
    );
    hs.add_health_to_entity(&body, HealthBuilder::new().with_hitpoints((fx(10), fx(10))));

    rbs.update(PHYSICS_STEP, &mut ts, &mut hs);

    // the boxes overlap but the contact is resting (zero closing speed):
    // no correction moves them apart and no contact damage is dealt
    assert_eq!(ts.get_position(&body).unwrap(), Vec3fx::new(FX_ONE / 2, 0, 0));
    assert_eq!(ts.get_position(&wall).unwrap(), Vec3fx::new(0, 0, 0));
    assert_eq!(hs.get_hitpoints(&body).unwrap(), (fx(10), fx(10)));
}

#[test]
fn foothold_scenario_body_settles_on_static_floor() {
    let mut em = EntityManager::new();
    let mut ts = TransformationSystem::new();
    let mut rbs = RigidBodySystem::new();
    let mut hs = HealthSystem::new();

    let floor = em.create_new_entity();
    let faller = em.create_new_entity();
    ts.add_transformation_to_entity(&floor, TransformationBuilder::new().at_position(Vec3fx::new(0, 0, 0)));
    ts.add_transformation_to_entity(&faller, TransformationBuilder::new().at_position(Vec3fx::new(0, fx(5), 0)));
    rbs.add_rigid_body_to_entity(
        &floor,
        RigidBodyBuilder::new().with_extents(Vec3fx::new(fx(10), FX_ONE / 2, fx(10))),
        &ts,
    );
    rbs.add_rigid_body_to_entity(
        &faller,
        RigidBodyBuilder::new().with_mass(FX_ONE).with_elasticity(0),
        &ts,
    );

    for _ in 0..240 {
        rbs.update(PHYSICS_STEP, &mut ts, &mut hs);
    }

    assert!(rbs.entity_has_foothold(&faller));
    assert!(!rbs.entity_has_foothold(&floor));
    let v = rbs.get_velocity(&faller).unwrap();
    // settled: at most one substep of gravity remains in the velocity
    let grav_step = fx_mul(-643563, PHYSICS_STEP);
    assert!(v.y >= grav_step && v.y <= 0, "vy = {}", v.y);
}

#[test]
fn contact_damage_and_die_on_collision() {
    let mut em = EntityManager::new();
    let mut ts = TransformationSystem::new();
    let mut rbs = RigidBodySystem::new();
    let mut hs = HealthSystem::new();

    let spike = em.create_new_entity();
    let victim = em.create_new_entity();
    ts.add_transformation_to_entity(&spike, TransformationBuilder::new().at_position(Vec3fx::new(0, 0, 0)));
    ts.add_transformation_to_entity(&victim, TransformationBuilder::new().at_position(Vec3fx::new(FX_ONE / 2, 0, 0)));
    rbs.add_rigid_body_to_entity(
        &spike,
        RigidBodyBuilder::new().dealing_damage(fx(2)).is_gravity_immune(),
        &ts,
    );
    rbs.add_rigid_body_to_entity(
        &victim,
        RigidBodyBuilder::new().with_mass(FX_ONE).is_gravity_immune().with_velocity(Vec3fx::new(-fx(1), 0, 0)),
        &ts,
    );
    hs.add_health_to_entity(&victim, HealthBuilder::new().with_hitpoints((fx(10), fx(10))));

    rbs.update(PHYSICS_STEP, &mut ts, &mut hs);

    let hp = hs.get_hitpoints(&victim).unwrap();
    assert_eq!(hp.0, fx(8));
    assert_eq!(hp.1, fx(10));
}

#[test]
fn ray_cast_reports_nearest_and_skips_caster() {
    let mut em = EntityManager::new();
    let mut ts = TransformationSystem::new();
    let mut rbs = RigidBodySystem::new();

    let caster = em.create_new_entity();
    let near = em.create_new_entity();
    let far = em.create_new_entity();
    ts.add_transformation_to_entity(&caster, TransformationBuilder::new().at_position(Vec3fx::new(0, 0, 0)));
    ts.add_transformation_to_entity(&near, TransformationBuilder::new().at_position(Vec3fx::new(fx(3), 0, 0)));
    ts.add_transformation_to_entity(&far, TransformationBuilder::new().at_position(Vec3fx::new(fx(6), 0, 0)));
    rbs.add_rigid_body_to_entity(&caster, RigidBodyBuilder::new(), &ts);
    rbs.add_rigid_body_to_entity(&near, RigidBodyBuilder::new().with_extents(Vec3fx::new(fx(1), fx(1), fx(1))), &ts);
    rbs.add_rigid_body_to_entity(&far, RigidBodyBuilder::new().with_extents(Vec3fx::new(fx(1), fx(1), fx(1))), &ts);

    let ray = (Vec3fx::new(0, 0, 0), Vec3fx::new(FX_ONE, 1, 1));
    let hit = rbs.ray_cast(ray, &ts, caster).unwrap();
    assert_eq!(hit.1.index(), near.index());
    assert_eq!(hit.0, fx_mul(fx(3), fx(3)));
}

#[test]
fn forward_and_right_vectors_of_identity_rotation() {
    let mut em = EntityManager::new();
    let mut ts = TransformationSystem::new();
    let a = em.create_new_entity();
    ts.add_transformation_to_entity(&a, TransformationBuilder::new());
    assert_eq!(ts.get_forward_vector(&a).unwrap(), Vec3fx::new(0, 0, -FX_ONE));
    assert_eq!(ts.get_right_vector(&a).unwrap(), Vec3fx::new(-FX_ONE, 0, 0));
    let q = Quatfx { x: 0, y: 0, z: 0, w: FX_ONE };
    ts.set_rotation(&a, q);
    assert_eq!(ts.get_forward_vector(&a).unwrap(), Vec3fx::new(0, 0, -FX_ONE));
}

#[test]
fn transformation_movement_and_scale() {
    let mut em = EntityManager::new();
    let mut ts = TransformationSystem::new();
    let a = em.create_new_entity();
    ts.add_transformation_to_entity(&a, TransformationBuilder::new().at_position(Vec3fx::new(fx(1), fx(1), 0)));
    ts.apply_movement(&a, Vec3fx::new(fx(2), -fx(3), fx(1)));
    assert_eq!(ts.get_position(&a).unwrap(), Vec3fx::new(fx(3), -fx(2), fx(1)));
    ts.set_scale(&a, Vec3fx::new(fx(2), fx(2), fx(2)));
    let rec = ts.get_transformation_data(&a).unwrap();
    assert_eq!(rec.scale, Vec3fx::new(fx(2), fx(2), fx(2)));
    assert_eq!(rec.pivot, Vec3fx::new(0, 0, 0));
}

#[test]
fn model_file_round_trip_is_bit_exact() {
    let vertices = vec![
        Vertex {
            px: 0x3F800000,
            py: 0x00000000,
            pz: 0xBF800000,
            nx: 0x3F000000,
            ny: 0x80000000,
            nz: 0xFFFFFFFF,
            tu: 0x3E99999A,
            tv: 0x12345678,
        },
        Vertex {
            px: 1,
            py: 2,
            pz: 3,
            nx: 4,
            ny: 5,
            nz: 6,
            tu: 7,
            tv: 8,
        },
    ];
    let indices = vec![0u32, 1, 0xDEADBEEF];
    let bytes = encode_model(&vertices, &indices);
    assert_eq!(bytes.len(), 8 + 32 * vertices.len() + 4 * indices.len());
    let (vs, is) = decode_model(&bytes).unwrap();
    assert_eq!(vs, vertices);
    assert_eq!(is, indices);
}

#[test]
fn model_decode_rejects_truncated_data() {
    let vertices = vec![Vertex { px: 1, py: 2, pz: 3, nx: 4, ny: 5, nz: 6, tu: 7, tv: 8 }];
    let indices = vec![9u32];
    let mut bytes = encode_model(&vertices, &indices);
    bytes.pop();
    assert!(decode_model(&bytes).is_none());
    assert!(decode_model(&vec![1u8, 2, 3]).is_none());
}

#[test]
fn model_decode_ignores_trailing_bytes() {
    let vertices = vec![Vertex { px: 1, py: 2, pz: 3, nx: 4, ny: 5, nz: 6, tu: 7, tv: 8 }];
    let indices = vec![9u32];
    let mut bytes = encode_model(&vertices, &indices);
    bytes.push(0xAB);
    let (vs, is) = decode_model(&bytes).unwrap();
    assert_eq!(vs, vertices);
    assert_eq!(is, indices);
}

#[test]
fn fixed_point_arithmetic_exact_values() {
    assert_eq!(fx_mul(fx(3), fx(2)), fx(6));
    assert_eq!(fx_mul(fx(3), -fx(2)), -fx(6));
    assert_eq!(fx_div(fx(1), fx(2)), FX_ONE / 2);
    assert_eq!(fx_div(fx(7), fx(7)), FX_ONE);
    assert_eq!(fx_add(i64::MAX, 1), i64::MAX);
    assert_eq!(fx_sub(i64::MIN, 1), i64::MIN);
    // truncation toward zero
    assert_eq!(fx_mul(1, 1), 0);
    assert_eq!(fx_mul(-1, 1), 0);
}

#[test]
fn range_bounds_and_lerp() {
    let r = Range::new(fx(1), fx(3));
    assert_eq!(r.get_min(), fx(1));
    assert_eq!(r.get_max(), fx(3));
    assert_eq!(r.get_average(), fx(2));
    assert_eq!(r.lerp(0), fx(1));
    assert_eq!(r.lerp(FX_ONE), fx(3));
    assert_eq!(r.lerp(FX_ONE / 2), fx(2));
    // the factor is clamped to the unit interval
    assert_eq!(r.lerp(fx(9)), fx(3));
    assert_eq!(r.lerp(-fx(9)), fx(1));
}

#[test]
fn range_random_sample_stays_in_bounds() {
    let mut prng = XorShift128Plus::new(42);
    let r = Range::new(fx(1), fx(2));
    for _ in 0..1000 {
        let v = r.get_random(&mut prng);
        assert!(v >= fx(1) && v <= fx(2), "sample {} out of range", v);
    }
}

#[test]
fn drawable_store_and_jobs() {
    let mut em = EntityManager::new();
    let mut ts = TransformationSystem::new();
    let mut ds = DrawableSystem::new();
    let a = em.create_new_entity();
    let b = em.create_new_entity();
    ts.add_transformation_to_entity(&a, TransformationBuilder::new().at_position(Vec3fx::new(fx(1), 0, 0)));
    ts.add_transformation_to_entity(&b, TransformationBuilder::new().at_position(Vec3fx::new(fx(2), 0, 0)));
    ds.add_drawable_to_entity(&a, &ts, DrawableBuilder::new().using_shader(7));
    ds.add_drawable_to_entity(&b, &ts, DrawableBuilder::new().using_shader(9));
    em.set_entity_is_active(&b, false);

    let jobs = ds.draw_all(&em, &ts);
    assert_eq!(jobs.len(), 1);
    assert_eq!(jobs[0].shader, 7);
    assert_eq!(jobs[0].position, Vec3fx::new(fx(1), 0, 0));

    ds.remove_drawable_from_entity(&a);
    assert!(!ds.entity_has_drawable(&a));
    assert!(ds.entity_has_drawable(&b));
}

#[test]
fn particle_emitter_pool_and_update() {
    let mut em = EntityManager::new();
    let mut ts = TransformationSystem::new();
    let mut rbs = RigidBodySystem::new();
    let mut ds = DrawableSystem::new();
    let mut pes = ParticleEmitterSystem::new();
    let mut prng = XorShift128Plus::new(7);

    let e = em.create_new_entity();
    ts.add_transformation_to_entity(&e, TransformationBuilder::new().at_position(Vec3fx::new(0, fx(1), 0)));
    pes.add_particle_emitter_to_entity(
        &e,
        ParticleEmitterBuilder::new(),
        DrawableBuilder::new().using_shader(3),
        &mut em,
        &mut ts,
        &mut rbs,
        &mut ds,
    );
    assert!(pes.entity_has_particle_emitter(&e));

    // a pool of particles was created after the emitter's owner
    let next = em.create_new_entity();
    assert!(next.index() > e.index() + 1);

    pes.update(PHYSICS_STEP * 3, &mut prng, &mut em, &mut ts, &mut rbs);
    assert!(em.entity_is_alive(&e));

    pes.remove_particle_emitter_from_entity(&e, &mut em);
    assert!(!pes.entity_has_particle_emitter(&e));
}

#[test]
fn update_without_a_whole_step_changes_nothing() {
    let mut em = EntityManager::new();
    let mut ts = TransformationSystem::new();
    let mut rbs = RigidBodySystem::new();
    let mut hs = HealthSystem::new();
    let a = em.create_new_entity();
    ts.add_transformation_to_entity(&a, TransformationBuilder::new().at_position(Vec3fx::new(0, fx(5), 0)));
    rbs.add_rigid_body_to_entity(&a, RigidBodyBuilder::new().with_mass(FX_ONE), &ts);

    rbs.update(PHYSICS_STEP - 1, &mut ts, &mut hs);
    assert_eq!(ts.get_position(&a).unwrap(), Vec3fx::new(0, fx(5), 0));
    assert_eq!(rbs.get_velocity(&a).unwrap(), Vec3fx::new(0, 0, 0));

    // the missing moment completes one whole step
    rbs.update(1, &mut ts, &mut hs);
    assert!(rbs.get_velocity(&a).unwrap().y < 0);
    assert!(ts.get_position(&a).unwrap().y < fx(5));
}

#[test]
fn entity_index_is_masked_to_24_bits() {
    let e = Entity::new(0x0200_0001, 5);
    assert_eq!(e.index(), 1);
    assert_eq!(e.generation(), 5);
}

#[test]
fn search_direction_covers_the_plane() {
    let all = [
        SearchDirection2D::Up,
        SearchDirection2D::Left,
        SearchDirection2D::Down,
        SearchDirection2D::Right,
    ];
    assert_eq!(all.len(), 4);
    assert!(matches!(all[0], SearchDirection2D::Up));
    assert!(matches!(all[3], SearchDirection2D::Right));
}
