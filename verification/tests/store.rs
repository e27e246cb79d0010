use sim_settings::bond::BondType;
use sim_settings::config::Settings;
use sim_settings::material::MaterialTable;
use sim_settings::telemetry::{Data, Property};

#[test]
fn workgroup_scenarios() {
    let mut s = Settings::new();
    assert_eq!(s.sim.particles, 256);
    assert_eq!(s.sim.workgroups, 1);
    s.set_particles(257);
    assert_eq!(s.sim.workgroups, 2);
    s.set_particles(0);
    assert_eq!(s.sim.particles, 1);
    assert_eq!(s.sim.workgroups, 1);
}

#[test]
fn bond_codes() {
    assert_eq!(BondType::Unbonded.code(), 0);
    assert_eq!(BondType::Normal_Bonds.code(), 1);
    assert_eq!(BondType::Linear_Contact_Bond.code(), 2);
    assert_eq!(BondType::Parallel_Linear_Contact_Bond.code(), 3);
}

#[test]
fn velocity_bound_drag() {
    let mut s = Settings::new();
    assert_eq!(s.sim.min_h_velocity, 0.0f32.to_bits());
    s.set_max_h_velocity((-2.0f32).to_bits());
    assert_eq!(s.sim.min_h_velocity, (-2.0f32).to_bits());
    assert_eq!(s.sim.max_h_velocity, (-2.0f32).to_bits());
}

#[test]
fn material_table_scenario() {
    let vals: Vec<u32> = vec![1.0f32, 1.0, 1.0, 1.0, 10.0, 0.25]
        .into_iter()
        .map(f32::to_bits)
        .collect();
    let t = MaterialTable::new(vals, 6).unwrap();
    assert_eq!(t.row_count(), 1);
    assert_eq!(f32::from_bits(t.get(0, 3).unwrap()), 1.0);
    assert!(MaterialTable::new(vec![0, 0, 0, 0, 0], 6).is_err());
}

#[test]
fn telemetry_push_scenario() {
    let mut d = Data::new();
    let vals: [u64; 10] = [
        1.0f64.to_bits(),
        2.0f64.to_bits(),
        3.0f64.to_bits(),
        4.0f64.to_bits(),
        5.0f64.to_bits(),
        6.0f64.to_bits(),
        7.0f64.to_bits(),
        8.0f64.to_bits(),
        9.0f64.to_bits(),
        10.0f64.to_bits(),
    ];
    d.push(0.016f64.to_bits(), vals);
    let c = d.channel(Property::X_Position);
    assert_eq!(c.len(), 1);
    assert_eq!(c[0].timestamp, 0.016f64.to_bits());
    assert_eq!(f64::from_bits(c[0].value), 1.0);
    let g = d.channel(Property::Data_4);
    assert_eq!(g.len(), 1);
    assert_eq!(f64::from_bits(g[0].value), 10.0);
}

#[test]
fn collision_encode_repeatable() {
    let mut s = Settings::new();
    s.set_gravity(false);
    assert!(s.phys.changed_collision_settings);
    let a = s.collison_settings();
    assert!(!s.phys.changed_collision_settings);
    let b = s.collison_settings();
    assert_eq!(a, b);
    assert_eq!(a.len(), 16);
    assert_eq!(f32::from_bits(a[0]), 1.333);
    assert_eq!(a[2], 0u32);
    let gravity_on_bits: f32 = bytemuck::cast(1i32);
    assert_eq!(gravity_on_bits.to_bits(), 1u32);
}
