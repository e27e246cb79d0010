//! The authoritative simulation parameter store and its buffer encoders.

use vstd::prelude::*;
use crate::bits::{
    bool_bits, bool_i32, encode_bool, encode_bool_i32, order_key, spec_order_key, F32_BITS_0,
    F32_BITS_0_1, F32_BITS_0_2, F32_BITS_0_25, F32_BITS_0_5, F32_BITS_1, F32_BITS_10,
    F32_BITS_1_333, F32_BITS_1_7, F32_BITS_2, F32_BITS_3, F32_BITS_32,
};
use crate::bond::{spec_bond_code, BondType};
use crate::error::ConfigError;
use crate::material::{MaterialTable, MATERIAL_ROW_WIDTH};
use crate::telemetry::{Data, Property, Sample};

verus! {

/// Bit pattern of the default maximum particle radius, the 32-bit quotient
/// 0.1 / 3.2 (exactly 1/32).
pub const DEFAULT_MAX_RADIUS_BITS: u32 = 0x3D00_0000;

/// Bit pattern of the default minimum particle radius, the 32-bit quotient
/// of the default maximum radius and the default holeyness 1.7.
pub const DEFAULT_MIN_RADIUS_BITS: u32 = 0x3C96_9696;

/// Which menus of the settings panel are open.
#[derive(Clone, Copy, Debug, PartialEq, Eq, Structural)]
pub struct Menu {
    pub render_settings: bool,
    pub materials_menu: bool,
    pub setup_menu: bool,
    pub physics_menu: bool,
    pub walls_menu: bool,
    pub save_load_menu: bool,
    pub properties_menu: bool,
    pub data_menu: bool,
}

/// Per-field property overrides for a particle selection: for each field an
/// enable flag and a value (the value is meaningful only while its flag is
/// set; no constraint binds it otherwise). Scalars are raw 32-bit float bit
/// patterns.
#[derive(Clone, Copy, Debug, PartialEq, Eq, Structural)]
pub struct Properties {
    pub set_x_force: bool,
    pub set_y_force: bool,
    pub set_rot_force: bool,
    pub set_material: bool,
    pub set_x_fixity: bool,
    pub set_y_fixity: bool,
    pub set_rot_fixity: bool,
    pub set_radius: bool,
    pub x_force: u32,
    pub y_force: u32,
    pub rot_force: u32,
    pub material: i32,
    pub x_fixity: bool,
    pub y_fixity: bool,
    pub rot_fixity: bool,
    pub radius: u32,
}

/// The initial arrangement the particles are generated in.
#[derive(Clone, Copy, Debug, PartialEq, Eq, Structural)]
pub enum Structure {
    Grid,
    Random,
    Exp1,
    Exp2,
    Exp3,
    Exp4,
    Exp5,
    Exp6,
    Mats,
}

/// Particle-setup parameters: how many particles exist, how they are
/// batched into workgroups, and how they are generated (radius bounds,
/// initial-velocity bounds, arrangement).
#[allow(non_snake_case)]
#[derive(Clone, Copy, Debug, PartialEq, Eq, Structural)]
pub struct SimParams {
    pub genPerFrame: i32,
    pub particles: usize,
    pub workgroups: usize,
    pub workgroup_size: usize,
    pub max_radius: u32,
    pub min_radius: u32,
    pub max_bonds: usize,
    pub max_contacts: usize,
    pub max_h_velocity: u32,
    pub min_h_velocity: u32,
    pub max_v_velocity: u32,
    pub min_v_velocity: u32,
    pub structure: Structure,
    pub grid_width: u32,
    pub variable_rad: bool,
    pub holeyness: u32,
    pub scale: u32,
    pub two_part: bool,
}

/// The physics parameters that feed the collision-settings buffer,
/// together with that buffer's dirty flag.
#[derive(Clone, Copy, Debug, PartialEq, Eq, Structural)]
pub struct PhysParams {
    pub hor_bound: u32,
    pub vert_bound: u32,
    pub gravity: bool,
    pub planet_mode: bool,
    pub gravity_acceleration: u32,
    pub bonds: i32,
    pub bondenum: BondType,
    pub bond_tearing: bool,
    pub bond_force_limit: u32,
    pub stiffness: u32,
    pub collisions: bool,
    pub friction: bool,
    pub friction_coefficient: u32,
    pub rotation: bool,
    pub linear_contact_bonds: bool,
    pub damping: u32,
    pub bond_shear_limit: u32,
    pub changed_collision_settings: bool,
}

/// The render toggles.
#[derive(Clone, Copy, Debug, PartialEq, Eq, Structural)]
pub struct RenderParams {
    pub circular_particles: bool,
    pub render_rot: bool,
    pub color_code_rot: bool,
    pub colors: bool,
    pub random_colors: bool,
    pub render_bonds: bool,
}

/// The material table and its dirty flag.
pub struct MaterialState {
    pub materials: MaterialTable,
    pub materials_changed: bool,
}

/// Interactive-shell state: open menus, plot selection, property overrides
/// and the persistence handshake.
pub struct UiState {
    pub settings_menu: bool,
    pub maintain_ar: bool,
    pub menu: Menu,
    pub current_file: Option<String>,
    pub load: bool,
    pub save: bool,
    pub regen_bonds: bool,
    pub properties: Properties,
    pub set_properties: bool,
    pub auto_size_plot: bool,
    pub plotted_prop: Property,
}

/// The authoritative simulation parameter set, grouped by concern. Scalars
/// the GPU reads as 32-bit floats are held as their raw bit patterns
/// (`u32`); the rest are plain integers, booleans and enums.
pub struct Settings {
    pub sim: SimParams,
    pub phys: PhysParams,
    pub render: RenderParams,
    pub mat: MaterialState,
    pub ui: UiState,
    pub data: Data,
}

/// The workgroup count demanded by a particle count: the ceiling of
/// `particles / workgroup_size`.
pub open spec fn spec_ceil_div(n: int, d: int) -> int
    recommends
        d > 0,
{
    if n % d == 0 {
        n / d
    } else {
        n / d + 1
    }
}

/// The ceiling quotient is the least count of full groups covering `n`
/// items: `count * d` reaches `n`, one group fewer falls short, and at
/// least one group is needed for a positive `n`.
pub proof fn lemma_workgroup_count(n: int, d: int)
    requires
        n > 0,
        d > 0,
    ensures
        spec_ceil_div(n, d) * d >= n,
        spec_ceil_div(n, d) >= 1,
        (spec_ceil_div(n, d) - 1) * d < n,
{
    vstd::arithmetic::div_mod::lemma_fundamental_div_mod(n, d);
    let q = n / d;
    let r = n % d;
    assert(0 <= r < d);
    assert(n == d * q + r);
    if r == 0 {
        assert(q * d == n) by (nonlinear_arith)
            requires
                n == d * q,
        ;
        assert(q >= 1) by (nonlinear_arith)
            requires
                n == d * q,
                n > 0,
                d > 0,
        ;
        assert((q - 1) * d == n - d) by (nonlinear_arith)
            requires
                n == d * q,
        ;
    } else {
        assert((q + 1) * d == n - r + d) by (nonlinear_arith)
            requires
                n == d * q + r,
        ;
        assert(q * d == n - r) by (nonlinear_arith)
            requires
                n == d * q + r,
        ;
        assert(q >= 0) by (nonlinear_arith)
            requires
                n == d * q + r,
                n > 0,
                d > 0,
                0 <= r < d,
        ;
    }
}

/// Ceiling division on machine integers, for deriving the workgroup count.
pub fn ceil_div(n: usize, d: usize) -> (q: usize)
    requires
        d > 0,
    ensures
        q == spec_ceil_div(n as int, d as int),
{
    let quot = n / d;
    let rem = n % d;
    if rem == 0 {
        quot
    } else {
        proof {
            vstd::arithmetic::div_mod::lemma_fundamental_div_mod(n as int, d as int);
            assert(quot < n) by (nonlinear_arith)
                requires
                    n == d * quot + rem,
                    0 < rem,
                    d >= 1,
                    quot >= 0,
            ;
        }
        quot + 1
    }
}

/// The sixteen 32-bit slots of the collision-settings buffer, in wire
/// order. Booleans and the bond code occupy their slots as raw
/// bit-reinterpreted integers; continuous parameters keep their float bit
/// patterns as stored.
pub open spec fn spec_collision_slots(p: PhysParams) -> Seq<u32> {
    seq![
        p.hor_bound,
        p.vert_bound,
        bool_bits(p.gravity),
        bool_bits(p.planet_mode),
        p.bonds as u32,
        bool_bits(p.collisions),
        bool_bits(p.friction),
        p.friction_coefficient,
        bool_bits(p.rotation),
        bool_bits(p.linear_contact_bonds),
        p.gravity_acceleration,
        p.stiffness,
        bool_bits(p.bond_tearing),
        p.bond_force_limit,
        p.damping,
        p.bond_shear_limit,
    ]
}

/// The nine integer slots of the render-settings buffer, in wire order.
/// Toggles are encoded as 0 or 1; the wall bounds and the stiffness keep
/// their float bit patterns, reinterpreted as integers; the bond slot is on
/// only when bonds exist and are to be drawn.
pub open spec fn spec_render_slots(s: Settings) -> Seq<i32> {
    seq![
        bool_i32(s.render.circular_particles),
        bool_i32(s.render.render_rot),
        bool_i32(s.render.color_code_rot),
        bool_i32(s.render.colors),
        bool_i32(s.phys.bonds != 0 && s.render.render_bonds),
        s.phys.hor_bound as i32,
        s.phys.vert_bound as i32,
        s.phys.stiffness as i32,
        bool_i32(s.render.random_colors),
    ]
}

/// The sixteen 32-bit slots of the properties buffer, in wire order: the
/// eight enable flags, then the force values, the material index, the
/// three fixity flags and the radius. Flags, fixities and the index are
/// bit-reinterpreted integers; forces and radius keep their float bit
/// patterns.
pub open spec fn spec_properties_slots(p: Properties) -> Seq<u32> {
    seq![
        bool_bits(p.set_x_force),
        bool_bits(p.set_y_force),
        bool_bits(p.set_rot_force),
        bool_bits(p.set_material),
        bool_bits(p.set_x_fixity),
        bool_bits(p.set_y_fixity),
        bool_bits(p.set_rot_fixity),
        bool_bits(p.set_radius),
        p.x_force,
        p.y_force,
        p.rot_force,
        p.material as u32,
        bool_bits(p.x_fixity),
        bool_bits(p.y_fixity),
        bool_bits(p.rot_fixity),
        p.radius,
    ]
}

/// The collision-settings slots do not read the dirty flag, which is all
/// an encode changes: encoding twice without intervening mutation yields
/// identical output.
pub proof fn lemma_collision_encoding_repeatable(p: PhysParams)
    ensures
        spec_collision_slots((PhysParams { changed_collision_settings: false, ..p }))
            == spec_collision_slots(p),
{
}

/// The interactive-shell state outside the persistence handshake (the
/// current file and the two intent flags) is the same on both sides.
pub open spec fn ui_unchanged_except_persistence(a: UiState, b: UiState) -> bool {
    &&& a.settings_menu == b.settings_menu
    &&& a.maintain_ar == b.maintain_ar
    &&& a.menu == b.menu
    &&& a.regen_bonds == b.regen_bonds
    &&& a.properties == b.properties
    &&& a.set_properties == b.set_properties
    &&& a.auto_size_plot == b.auto_size_plot
    &&& a.plotted_prop == b.plotted_prop
}

/// The interactive-shell state outside the panel toggles (the settings
/// menu and the aspect-ratio lock) is the same on both sides.
pub open spec fn ui_unchanged_except_panel(a: UiState, b: UiState) -> bool {
    &&& a.menu == b.menu
    &&& a.current_file == b.current_file
    &&& a.load == b.load
    &&& a.save == b.save
    &&& a.regen_bonds == b.regen_bonds
    &&& a.properties == b.properties
    &&& a.set_properties == b.set_properties
    &&& a.auto_size_plot == b.auto_size_plot
    &&& a.plotted_prop == b.plotted_prop
}

impl Settings {
    /// The store invariant: a positive workgroup size, a positive particle
    /// count with the workgroup count derived from it by ceiling division,
    /// each lower slider bound at or below its upper bound (in float order
    /// of the bit patterns), the bond code in step with the bond model, and
    /// whole material rows.
    pub open spec fn wf(&self) -> bool {
        &&& self.sim.workgroup_size > 0
        &&& self.sim.particles > 0
        &&& self.sim.workgroups == spec_ceil_div(
            self.sim.particles as int,
            self.sim.workgroup_size as int,
        )
        &&& spec_order_key(self.sim.min_h_velocity) <= spec_order_key(self.sim.max_h_velocity)
        &&& spec_order_key(self.sim.min_v_velocity) <= spec_order_key(self.sim.max_v_velocity)
        &&& spec_order_key(self.sim.min_radius) <= spec_order_key(self.sim.max_radius)
        &&& self.phys.bonds == spec_bond_code(self.phys.bondenum)
        &&& self.mat.materials.wf()
    }

    /// The startup configuration: 256 particles in one workgroup of 256, a
    /// grid of variable-radius particles, gravity, collisions, friction and
    /// rotation on, no bonds, one default material row, both dirty flags
    /// clear, no file chosen and empty telemetry.
    pub fn new() -> (s: Settings)
        ensures
            s.sim == (SimParams {
                genPerFrame: 1,
                particles: 256,
                workgroups: 1,
                workgroup_size: 256,
                max_radius: DEFAULT_MAX_RADIUS_BITS,
                min_radius: DEFAULT_MIN_RADIUS_BITS,
                max_bonds: 6,
                max_contacts: 8,
                max_h_velocity: F32_BITS_0,
                min_h_velocity: F32_BITS_0,
                max_v_velocity: F32_BITS_0,
                min_v_velocity: F32_BITS_0,
                structure: Structure::Grid,
                grid_width: F32_BITS_32,
                variable_rad: true,
                holeyness: F32_BITS_1_7,
                scale: F32_BITS_1,
                two_part: false,
            }),
            s.phys == (PhysParams {
                hor_bound: F32_BITS_1_333,
                vert_bound: F32_BITS_1,
                gravity: true,
                planet_mode: false,
                gravity_acceleration: F32_BITS_1,
                bonds: 0,
                bondenum: BondType::Unbonded,
                bond_tearing: false,
                bond_force_limit: F32_BITS_0_5,
                stiffness: F32_BITS_0_1,
                collisions: true,
                friction: true,
                friction_coefficient: F32_BITS_0_5,
                rotation: true,
                linear_contact_bonds: true,
                damping: F32_BITS_0_2,
                bond_shear_limit: F32_BITS_0_5,
                changed_collision_settings: false,
            }),
            s.render == (RenderParams {
                circular_particles: true,
                render_rot: false,
                color_code_rot: false,
                colors: true,
                random_colors: false,
                render_bonds: true,
            }),
            s.mat.materials.spec_row_width() == MATERIAL_ROW_WIDTH,
            s.mat.materials.spec_values() == seq![
                F32_BITS_1,
                F32_BITS_1,
                F32_BITS_1,
                F32_BITS_1,
                F32_BITS_10,
                F32_BITS_0_25,
            ],
            s.mat.materials_changed == false,
            s.ui.settings_menu == false,
            s.ui.maintain_ar == true,
            s.ui.menu == (Menu {
                render_settings: false,
                materials_menu: false,
                setup_menu: false,
                physics_menu: false,
                walls_menu: false,
                save_load_menu: false,
                properties_menu: false,
                data_menu: false,
            }),
            s.ui.current_file is None,
            s.ui.load == false,
            s.ui.save == false,
            s.ui.regen_bonds == false,
            s.ui.properties == (Properties {
                set_x_force: false,
                set_y_force: false,
                set_rot_force: false,
                set_material: false,
                set_x_fixity: false,
                set_y_fixity: false,
                set_rot_fixity: false,
                set_radius: false,
                x_force: F32_BITS_0,
                y_force: F32_BITS_0,
                rot_force: F32_BITS_0,
                material: 0,
                x_fixity: false,
                y_fixity: false,
                rot_fixity: false,
                radius: F32_BITS_0,
            }),
            s.ui.set_properties == false,
            s.ui.auto_size_plot == true,
            s.ui.plotted_prop == Property::Y_Position,
            forall|p: Property| (#[trigger] s.data.spec_channel(p)) == Seq::<Sample>::empty(),
            s.data.synchronized(),
            s.wf(),
    {
        Settings {
            sim: SimParams {
                genPerFrame: 1,
                particles: 256,
                workgroups: 1,
                workgroup_size: 256,
                max_radius: DEFAULT_MAX_RADIUS_BITS,
                min_radius: DEFAULT_MIN_RADIUS_BITS,
                max_bonds: 6,
                max_contacts: 8,
                max_h_velocity: F32_BITS_0,
                min_h_velocity: F32_BITS_0,
                max_v_velocity: F32_BITS_0,
                min_v_velocity: F32_BITS_0,
                structure: Structure::Grid,
                grid_width: F32_BITS_32,
                variable_rad: true,
                holeyness: F32_BITS_1_7,
                scale: F32_BITS_1,
                two_part: false,
            },
            phys: PhysParams {
                hor_bound: F32_BITS_1_333,
                vert_bound: F32_BITS_1,
                gravity: true,
                planet_mode: false,
                gravity_acceleration: F32_BITS_1,
                bonds: 0,
                bondenum: BondType::Unbonded,
                bond_tearing: false,
                bond_force_limit: F32_BITS_0_5,
                stiffness: F32_BITS_0_1,
                collisions: true,
                friction: true,
                friction_coefficient: F32_BITS_0_5,
                rotation: true,
                linear_contact_bonds: true,
                damping: F32_BITS_0_2,
                bond_shear_limit: F32_BITS_0_5,
                changed_collision_settings: false,
            },
            render: RenderParams {
                circular_particles: true,
                render_rot: false,
                color_code_rot: false,
                colors: true,
                random_colors: false,
                render_bonds: true,
            },
            mat: MaterialState {
                materials: MaterialTable::with_default_row(),
                materials_changed: false,
            },
            ui: UiState {
                settings_menu: false,
                maintain_ar: true,
                menu: Menu {
                    render_settings: false,
                    materials_menu: false,
                    setup_menu: false,
                    physics_menu: false,
                    walls_menu: false,
                    save_load_menu: false,
                    properties_menu: false,
                    data_menu: false,
                },
                current_file: None,
                load: false,
                save: false,
                regen_bonds: false,
                properties: Properties {
                    set_x_force: false,
                    set_y_force: false,
                    set_rot_force: false,
                    set_material: false,
                    set_x_fixity: false,
                    set_y_fixity: false,
                    set_rot_fixity: false,
                    set_radius: false,
                    x_force: F32_BITS_0,
                    y_force: F32_BITS_0,
                    rot_force: F32_BITS_0,
                    material: 0,
                    x_fixity: false,
                    y_fixity: false,
                    rot_fixity: false,
                    radius: F32_BITS_0,
                },
                set_properties: false,
                auto_size_plot: true,
                plotted_prop: Property::Y_Position,
            },
            data: Data::new(),
        }
    }

    /// Sets the particle count, clamping zero to the minimum valid count
    /// of one, and recomputes the workgroup count as the ceiling of
    /// `particles / workgroup_size`. The two are never set independently.
    pub fn set_particles(&mut self, particles: usize)
        requires
            old(self).sim.workgroup_size > 0,
        ensures
            final(self).sim.particles == (if particles == 0 {
                1int
            } else {
                particles as int
            }),
            final(self).sim.workgroups == spec_ceil_div(
                final(self).sim.particles as int,
                old(self).sim.workgroup_size as int,
            ),
            final(self).sim == (SimParams {
                particles: final(self).sim.particles,
                workgroups: final(self).sim.workgroups,
                ..old(self).sim
            }),
            final(self).phys == old(self).phys,
            final(self).render == old(self).render,
            final(self).mat == old(self).mat,
            final(self).ui == old(self).ui,
            final(self).data == old(self).data,
            old(self).wf() ==> final(self).wf(),
    {
        let count = if particles == 0 {
            1
        } else {
            particles
        };
        let groups = ceil_div(count, self.sim.workgroup_size);
        self.sim.particles = count;
        self.sim.workgroups = groups;
    }

    /// Sets the upper horizontal initial-velocity bound. If the new upper
    /// bound falls below the lower bound (in float order of the bit
    /// patterns), the lower bound is pulled down to match.
    pub fn set_max_h_velocity(&mut self, value: u32)
        ensures
            final(self).sim == (SimParams {
                max_h_velocity: value,
                min_h_velocity: (if spec_order_key(value) < spec_order_key(
                    old(self).sim.min_h_velocity,
                ) {
                    value
                } else {
                    old(self).sim.min_h_velocity
                }),
                ..old(self).sim
            }),
            final(self).phys == old(self).phys,
            final(self).render == old(self).render,
            final(self).mat == old(self).mat,
            final(self).ui == old(self).ui,
            final(self).data == old(self).data,
            old(self).wf() ==> final(self).wf(),
    {
        self.sim.max_h_velocity = value;
        if order_key(value) < order_key(self.sim.min_h_velocity) {
            self.sim.min_h_velocity = value;
        }
    }

    /// Sets the lower horizontal initial-velocity bound, pulling the upper
    /// bound up to match if the new lower bound rises above it.
    pub fn set_min_h_velocity(&mut self, value: u32)
        ensures
            final(self).sim == (SimParams {
                min_h_velocity: value,
                max_h_velocity: (if spec_order_key(old(self).sim.max_h_velocity)
                    < spec_order_key(value) {
                    value
                } else {
                    old(self).sim.max_h_velocity
                }),
                ..old(self).sim
            }),
            final(self).phys == old(self).phys,
            final(self).render == old(self).render,
            final(self).mat == old(self).mat,
            final(self).ui == old(self).ui,
            final(self).data == old(self).data,
            old(self).wf() ==> final(self).wf(),
    {
        self.sim.min_h_velocity = value;
        if order_key(self.sim.max_h_velocity) < order_key(value) {
            self.sim.max_h_velocity = value;
        }
    }

    /// Sets the upper vertical initial-velocity bound, pulling the lower
    /// bound down to match if crossed.
    pub fn set_max_v_velocity(&mut self, value: u32)
        ensures
            final(self).sim == (SimParams {
                max_v_velocity: value,
                min_v_velocity: (if spec_order_key(value) < spec_order_key(
                    old(self).sim.min_v_velocity,
                ) {
                    value
                } else {
                    old(self).sim.min_v_velocity
                }),
                ..old(self).sim
            }),
            final(self).phys == old(self).phys,
            final(self).render == old(self).render,
            final(self).mat == old(self).mat,
            final(self).ui == old(self).ui,
            final(self).data == old(self).data,
            old(self).wf() ==> final(self).wf(),
    {
        self.sim.max_v_velocity = value;
        if order_key(value) < order_key(self.sim.min_v_velocity) {
            self.sim.min_v_velocity = value;
        }
    }

    /// Sets the lower vertical initial-velocity bound, pulling the upper
    /// bound up to match if crossed.
    pub fn set_min_v_velocity(&mut self, value: u32)
        ensures
            final(self).sim == (SimParams {
                min_v_velocity: value,
                max_v_velocity: (if spec_order_key(old(self).sim.max_v_velocity)
                    < spec_order_key(value) {
                    value
                } else {
                    old(self).sim.max_v_velocity
                }),
                ..old(self).sim
            }),
            final(self).phys == old(self).phys,
            final(self).render == old(self).render,
            final(self).mat == old(self).mat,
            final(self).ui == old(self).ui,
            final(self).data == old(self).data,
            old(self).wf() ==> final(self).wf(),
    {
        self.sim.min_v_velocity = value;
        if order_key(self.sim.max_v_velocity) < order_key(value) {
            self.sim.max_v_velocity = value;
        }
    }

    /// Sets the maximum particle radius, pulling the minimum radius down
    /// to match if crossed.
    pub fn set_max_radius(&mut self, value: u32)
        ensures
            final(self).sim == (SimParams {
                max_radius: value,
                min_radius: (if spec_order_key(value) < spec_order_key(old(self).sim.min_radius) {
                    value
                } else {
                    old(self).sim.min_radius
                }),
                ..old(self).sim
            }),
            final(self).phys == old(self).phys,
            final(self).render == old(self).render,
            final(self).mat == old(self).mat,
            final(self).ui == old(self).ui,
            final(self).data == old(self).data,
            old(self).wf() ==> final(self).wf(),
    {
        self.sim.max_radius = value;
        if order_key(value) < order_key(self.sim.min_radius) {
            self.sim.min_radius = value;
        }
    }

    /// Sets the minimum particle radius, pulling the maximum radius up to
    /// match if crossed.
    pub fn set_min_radius(&mut self, value: u32)
        ensures
            final(self).sim == (SimParams {
                min_radius: value,
                max_radius: (if spec_order_key(old(self).sim.max_radius) < spec_order_key(value) {
                    value
                } else {
                    old(self).sim.max_radius
                }),
                ..old(self).sim
            }),
            final(self).phys == old(self).phys,
            final(self).render == old(self).render,
            final(self).mat == old(self).mat,
            final(self).ui == old(self).ui,
            final(self).data == old(self).data,
            old(self).wf() ==> final(self).wf(),
    {
        self.sim.min_radius = value;
        if order_key(self.sim.max_radius) < order_key(value) {
            self.sim.max_radius = value;
        }
    }

    /// Toggles gravity and marks the collision settings dirty.
    pub fn set_gravity(&mut self, on: bool)
        ensures
            final(self).phys == (PhysParams {
                gravity: on,
                changed_collision_settings: true,
                ..old(self).phys
            }),
            final(self).sim == old(self).sim,
            final(self).render == old(self).render,
            final(self).mat == old(self).mat,
            final(self).ui == old(self).ui,
            final(self).data == old(self).data,
            old(self).wf() ==> final(self).wf(),
    {
        self.phys.gravity = on;
        self.phys.changed_collision_settings = true;
    }

    /// Toggles planet mode and marks the collision settings dirty.
    pub fn set_planet_mode(&mut self, on: bool)
        ensures
            final(self).phys == (PhysParams {
                planet_mode: on,
                changed_collision_settings: true,
                ..old(self).phys
            }),
            final(self).sim == old(self).sim,
            final(self).render == old(self).render,
            final(self).mat == old(self).mat,
            final(self).ui == old(self).ui,
            final(self).data == old(self).data,
            old(self).wf() ==> final(self).wf(),
    {
        self.phys.planet_mode = on;
        self.phys.changed_collision_settings = true;
    }

    /// Sets the gravitational acceleration and marks the collision
    /// settings dirty.
    pub fn set_gravity_acceleration(&mut self, value: u32)
        ensures
            final(self).phys == (PhysParams {
                gravity_acceleration: value,
                changed_collision_settings: true,
                ..old(self).phys
            }),
            final(self).sim == old(self).sim,
            final(self).render == old(self).render,
            final(self).mat == old(self).mat,
            final(self).ui == old(self).ui,
            final(self).data == old(self).data,
            old(self).wf() ==> final(self).wf(),
    {
        self.phys.gravity_acceleration = value;
        self.phys.changed_collision_settings = true;
    }

    /// Selects the bond model, keeps its integer code in step, and marks
    /// the collision settings dirty.
    pub fn set_bondenum(&mut self, bond: BondType)
        ensures
            final(self).phys == (PhysParams {
                bondenum: bond,
                bonds: spec_bond_code(bond),
                changed_collision_settings: true,
                ..old(self).phys
            }),
            final(self).sim == old(self).sim,
            final(self).render == old(self).render,
            final(self).mat == old(self).mat,
            final(self).ui == old(self).ui,
            final(self).data == old(self).data,
            old(self).wf() ==> final(self).wf(),
    {
        self.phys.bondenum = bond;
        self.phys.bonds = bond.code();
        self.phys.changed_collision_settings = true;
    }

    /// Sets the bond stiffness and marks the collision settings dirty.
    pub fn set_stiffness(&mut self, value: u32)
        ensures
            final(self).phys == (PhysParams {
                stiffness: value,
                changed_collision_settings: true,
                ..old(self).phys
            }),
            final(self).sim == old(self).sim,
            final(self).render == old(self).render,
            final(self).mat == old(self).mat,
            final(self).ui == old(self).ui,
            final(self).data == old(self).data,
            old(self).wf() ==> final(self).wf(),
    {
        self.phys.stiffness = value;
        self.phys.changed_collision_settings = true;
    }

    /// Toggles bond tearing and marks the collision settings dirty.
    pub fn set_bond_tearing(&mut self, on: bool)
        ensures
            final(self).phys == (PhysParams {
                bond_tearing: on,
                changed_collision_settings: true,
                ..old(self).phys
            }),
            final(self).sim == old(self).sim,
            final(self).render == old(self).render,
            final(self).mat == old(self).mat,
            final(self).ui == old(self).ui,
            final(self).data == old(self).data,
            old(self).wf() ==> final(self).wf(),
    {
        self.phys.bond_tearing = on;
        self.phys.changed_collision_settings = true;
    }

    /// Sets the bond tear limit and marks the collision settings dirty.
    pub fn set_bond_force_limit(&mut self, value: u32)
        ensures
            final(self).phys == (PhysParams {
                bond_force_limit: value,
                changed_collision_settings: true,
                ..old(self).phys
            }),
            final(self).sim == old(self).sim,
            final(self).render == old(self).render,
            final(self).mat == old(self).mat,
            final(self).ui == old(self).ui,
            final(self).data == old(self).data,
            old(self).wf() ==> final(self).wf(),
    {
        self.phys.bond_force_limit = value;
        self.phys.changed_collision_settings = true;
    }

    /// Toggles collisions and marks the collision settings dirty.
    pub fn set_collisions(&mut self, on: bool)
        ensures
            final(self).phys == (PhysParams {
                collisions: on,
                changed_collision_settings: true,
                ..old(self).phys
            }),
            final(self).sim == old(self).sim,
            final(self).render == old(self).render,
            final(self).mat == old(self).mat,
            final(self).ui == old(self).ui,
            final(self).data == old(self).data,
            old(self).wf() ==> final(self).wf(),
    {
        self.phys.collisions = on;
        self.phys.changed_collision_settings = true;
    }

    /// Sets the friction coefficient and marks the collision settings
    /// dirty.
    pub fn set_friction_coefficient(&mut self, value: u32)
        ensures
            final(self).phys == (PhysParams {
                friction_coefficient: value,
                changed_collision_settings: true,
                ..old(self).phys
            }),
            final(self).sim == old(self).sim,
            final(self).render == old(self).render,
            final(self).mat == old(self).mat,
            final(self).ui == old(self).ui,
            final(self).data == old(self).data,
            old(self).wf() ==> final(self).wf(),
    {
        self.phys.friction_coefficient = value;
        self.phys.changed_collision_settings = true;
    }

    /// Sets the horizontal wall bound and marks the collision settings
    /// dirty. Keeping the aspect ratio is the caller's concern: the stored
    /// vertical bound is untouched.
    pub fn set_hor_bound(&mut self, value: u32)
        ensures
            final(self).phys == (PhysParams {
                hor_bound: value,
                changed_collision_settings: true,
                ..old(self).phys
            }),
            final(self).sim == old(self).sim,
            final(self).render == old(self).render,
            final(self).mat == old(self).mat,
            final(self).ui == old(self).ui,
            final(self).data == old(self).data,
            old(self).wf() ==> final(self).wf(),
    {
        self.phys.hor_bound = value;
        self.phys.changed_collision_settings = true;
    }

    /// Sets the vertical wall bound and marks the collision settings
    /// dirty.
    pub fn set_vert_bound(&mut self, value: u32)
        ensures
            final(self).phys == (PhysParams {
                vert_bound: value,
                changed_collision_settings: true,
                ..old(self).phys
            }),
            final(self).sim == old(self).sim,
            final(self).render == old(self).render,
            final(self).mat == old(self).mat,
            final(self).ui == old(self).ui,
            final(self).data == old(self).data,
            old(self).wf() ==> final(self).wf(),
    {
        self.phys.vert_bound = value;
        self.phys.changed_collision_settings = true;
    }

    /// Writes one material scalar through to the table and marks the
    /// materials dirty. An out-of-range index is an error and changes
    /// nothing.
    pub fn set_material_value(&mut self, row: usize, field: usize, value: u32) -> (r: Result<
        (),
        ConfigError,
    >)
        requires
            old(self).mat.materials.wf(),
        ensures
            final(self).mat.materials.wf(),
            final(self).mat.materials.spec_row_width() == old(self).mat.materials.spec_row_width(),
            r is Ok <==> (row < old(self).mat.materials.spec_row_count() && field < old(
                self,
            ).mat.materials.spec_row_width()),
            r is Ok ==> final(self).mat.materials.spec_values() == old(
                self,
            ).mat.materials.spec_values().update(
                row * old(self).mat.materials.spec_row_width() + field,
                value,
            ),
            r is Ok ==> final(self).mat.materials_changed == true,
            r is Err ==> r->Err_0 == ConfigError::IndexOutOfRange,
            r is Err ==> final(self).mat == old(self).mat,
            final(self).sim == old(self).sim,
            final(self).phys == old(self).phys,
            final(self).render == old(self).render,
            final(self).ui == old(self).ui,
            final(self).data == old(self).data,
            old(self).wf() ==> final(self).wf(),
    {
        match self.mat.materials.set(row, field, value) {
            Ok(u) => {
                self.mat.materials_changed = true;
                Ok(u)
            },
            Err(e) => Err(e),
        }
    }

    /// Records the outcome of an open-file picker: a chosen path becomes
    /// the current file and raises the load intent flag; a cancelled
    /// picker changes nothing.
    pub fn load(&mut self, picked: Option<String>)
        ensures
            picked is Some ==> final(self).ui.current_file == picked,
            picked is Some ==> final(self).ui.load == true,
            picked is None ==> final(self).ui.current_file == old(self).ui.current_file,
            picked is None ==> final(self).ui.load == old(self).ui.load,
            final(self).ui.save == old(self).ui.save,
            ui_unchanged_except_persistence(final(self).ui, old(self).ui),
            final(self).sim == old(self).sim,
            final(self).phys == old(self).phys,
            final(self).render == old(self).render,
            final(self).mat == old(self).mat,
            final(self).data == old(self).data,
            old(self).wf() ==> final(self).wf(),
    {
        match picked {
            Some(path) => {
                self.ui.current_file = Some(path);
                self.ui.load = true;
            },
            None => {},
        }
    }

    /// Records the outcome of a save-file picker: a chosen path becomes
    /// the current file and raises the save intent flag; a cancelled
    /// picker changes nothing.
    pub fn save(&mut self, picked: Option<String>)
        ensures
            picked is Some ==> final(self).ui.current_file == picked,
            picked is Some ==> final(self).ui.save == true,
            picked is None ==> final(self).ui.current_file == old(self).ui.current_file,
            picked is None ==> final(self).ui.save == old(self).ui.save,
            final(self).ui.load == old(self).ui.load,
            ui_unchanged_except_persistence(final(self).ui, old(self).ui),
            final(self).sim == old(self).sim,
            final(self).phys == old(self).phys,
            final(self).render == old(self).render,
            final(self).mat == old(self).mat,
            final(self).data == old(self).data,
            old(self).wf() ==> final(self).wf(),
    {
        match picked {
            Some(path) => {
                self.ui.current_file = Some(path);
                self.ui.save = true;
            },
            None => {},
        }
    }

    /// Restores the benchmark baseline: 1024 particles in four workgroups
    /// of 256, the second experiment arrangement, walls of 3 by 2, gravity,
    /// collisions, friction and rotation on, the collision-settings flag
    /// clear, and the settings panel open. Bond model, materials, render
    /// toggles and telemetry keep their current state.
    pub fn reset(&mut self)
        ensures
            final(self).sim == (SimParams {
                genPerFrame: 1,
                particles: 1024,
                workgroups: 4,
                workgroup_size: 256,
                max_radius: DEFAULT_MAX_RADIUS_BITS,
                min_radius: DEFAULT_MIN_RADIUS_BITS,
                max_bonds: 4,
                max_h_velocity: F32_BITS_0,
                min_h_velocity: F32_BITS_0,
                max_v_velocity: F32_BITS_0,
                min_v_velocity: F32_BITS_0,
                structure: Structure::Exp2,
                grid_width: F32_BITS_32,
                variable_rad: true,
                holeyness: F32_BITS_1_7,
                ..old(self).sim
            }),
            final(self).phys == (PhysParams {
                hor_bound: F32_BITS_3,
                vert_bound: F32_BITS_2,
                gravity: true,
                collisions: true,
                friction: true,
                rotation: true,
                linear_contact_bonds: true,
                changed_collision_settings: false,
                ..old(self).phys
            }),
            final(self).ui.settings_menu == true,
            final(self).ui.maintain_ar == true,
            ui_unchanged_except_panel(final(self).ui, old(self).ui),
            final(self).render == old(self).render,
            final(self).mat == old(self).mat,
            final(self).data == old(self).data,
            old(self).wf() ==> final(self).wf(),
    {
        self.sim.genPerFrame = 1;
        self.sim.workgroups = 4;
        self.sim.workgroup_size = 256;
        self.sim.max_radius = DEFAULT_MAX_RADIUS_BITS;
        self.sim.variable_rad = true;
        self.sim.holeyness = F32_BITS_1_7;
        self.sim.min_radius = DEFAULT_MIN_RADIUS_BITS;
        self.sim.max_bonds = 4;
        self.sim.max_h_velocity = F32_BITS_0;
        self.sim.min_h_velocity = F32_BITS_0;
        self.sim.max_v_velocity = F32_BITS_0;
        self.sim.min_v_velocity = F32_BITS_0;
        self.sim.particles = 1024;
        self.sim.structure = Structure::Exp2;
        self.sim.grid_width = F32_BITS_32;
        self.ui.settings_menu = true;
        self.ui.maintain_ar = true;
        self.phys.hor_bound = F32_BITS_3;
        self.phys.vert_bound = F32_BITS_2;
        self.phys.gravity = true;
        self.phys.collisions = true;
        self.phys.friction = true;
        self.phys.rotation = true;
        self.phys.linear_contact_bonds = true;
        self.phys.changed_collision_settings = false;
    }

    /// Encodes the collision-settings buffer: sixteen 32-bit slots in the
    /// fixed wire order, and clears the collision-settings dirty flag.
    /// Nothing else changes, and the slots do not depend on the flag, so
    /// encoding twice without intervening mutation yields identical
    /// output.
    #[verifier::rlimit(50)]
    pub fn collison_settings(&mut self) -> (r: Vec<u32>)
        ensures
            r@ == spec_collision_slots(old(self).phys),
            final(self).phys == (PhysParams {
                changed_collision_settings: false,
                ..old(self).phys
            }),
            final(self).sim == old(self).sim,
            final(self).render == old(self).render,
            final(self).mat == old(self).mat,
            final(self).ui == old(self).ui,
            final(self).data == old(self).data,
            old(self).wf() ==> final(self).wf(),
    {
        self.phys.changed_collision_settings = false;
        let mut r: Vec<u32> = Vec::new();
        r.push(self.phys.hor_bound);
        r.push(self.phys.vert_bound);
        r.push(encode_bool(self.phys.gravity));
        r.push(encode_bool(self.phys.planet_mode));
        r.push(#[verifier::truncate] (self.phys.bonds as u32));
        r.push(encode_bool(self.phys.collisions));
        r.push(encode_bool(self.phys.friction));
        r.push(self.phys.friction_coefficient);
        r.push(encode_bool(self.phys.rotation));
        r.push(encode_bool(self.phys.linear_contact_bonds));
        r.push(self.phys.gravity_acceleration);
        r.push(self.phys.stiffness);
        r.push(encode_bool(self.phys.bond_tearing));
        r.push(self.phys.bond_force_limit);
        r.push(self.phys.damping);
        r.push(self.phys.bond_shear_limit);
        proof {
            assert(r@ =~= spec_collision_slots(old(self).phys));
        }
        r
    }

    /// Encodes the render-settings buffer: nine integer slots in the fixed
    /// wire order. The store is left untouched.
    #[verifier::rlimit(50)]
    pub fn render_settings(&mut self) -> (r: Vec<i32>)
        ensures
            r@ == spec_render_slots(*old(self)),
            final(self).sim == old(self).sim,
            final(self).phys == old(self).phys,
            final(self).render == old(self).render,
            final(self).mat == old(self).mat,
            final(self).ui == old(self).ui,
            final(self).data == old(self).data,
            old(self).wf() ==> final(self).wf(),
    {
        let mut r: Vec<i32> = Vec::new();
        r.push(encode_bool_i32(self.render.circular_particles));
        r.push(encode_bool_i32(self.render.render_rot));
        r.push(encode_bool_i32(self.render.color_code_rot));
        r.push(encode_bool_i32(self.render.colors));
        r.push(encode_bool_i32(self.phys.bonds != 0 && self.render.render_bonds));
        r.push(#[verifier::truncate] (self.phys.hor_bound as i32));
        r.push(#[verifier::truncate] (self.phys.vert_bound as i32));
        r.push(#[verifier::truncate] (self.phys.stiffness as i32));
        r.push(encode_bool_i32(self.render.random_colors));
        proof {
            assert(r@ =~= spec_render_slots(*old(self)));
        }
        r
    }

    /// Encodes the properties buffer: sixteen 32-bit slots in the fixed
    /// wire order. The store is left untouched.
    #[verifier::rlimit(50)]
    pub fn properties(&mut self) -> (r: Vec<u32>)
        ensures
            r@ == spec_properties_slots(old(self).ui.properties),
            final(self).sim == old(self).sim,
            final(self).phys == old(self).phys,
            final(self).render == old(self).render,
            final(self).mat == old(self).mat,
            final(self).ui == old(self).ui,
            final(self).data == old(self).data,
            old(self).wf() ==> final(self).wf(),
    {
        let mut r: Vec<u32> = Vec::new();
        r.push(encode_bool(self.ui.properties.set_x_force));
        r.push(encode_bool(self.ui.properties.set_y_force));
        r.push(encode_bool(self.ui.properties.set_rot_force));
        r.push(encode_bool(self.ui.properties.set_material));
        r.push(encode_bool(self.ui.properties.set_x_fixity));
        r.push(encode_bool(self.ui.properties.set_y_fixity));
        r.push(encode_bool(self.ui.properties.set_rot_fixity));
        r.push(encode_bool(self.ui.properties.set_radius));
        r.push(self.ui.properties.x_force);
        r.push(self.ui.properties.y_force);
        r.push(self.ui.properties.rot_force);
        r.push(#[verifier::truncate] (self.ui.properties.material as u32));
        r.push(encode_bool(self.ui.properties.x_fixity));
        r.push(encode_bool(self.ui.properties.y_fixity));
        r.push(encode_bool(self.ui.properties.rot_fixity));
        r.push(self.ui.properties.radius);
        proof {
            assert(r@ =~= spec_properties_slots(old(self).ui.properties));
        }
        r
    }
}

} // verus!
