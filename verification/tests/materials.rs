use fmc_tfm::{current_material_preset, Material, MaterialPreset};

#[test]
fn preset_velocities_are_correct() {
    assert_eq!(f64::from(MaterialPreset::Steel.velocity_mps()), 5900.0);
    assert_eq!(f64::from(MaterialPreset::Aluminum.velocity_mps()), 6300.0);
    assert_eq!(f64::from(MaterialPreset::Copper.velocity_mps()), 4700.0);
    assert_eq!(f64::from(MaterialPreset::Water.velocity_mps()), 1480.0);
    assert_eq!(f64::from(MaterialPreset::Acrylic.velocity_mps()), 2700.0);
}

#[test]
fn from_preset_sets_velocity() {
    let material: Material<f64> = Material::from_preset(MaterialPreset::Aluminum, 80.0, 40.0);
    assert_eq!(material.velocity_mps, 6300.0);
    assert_eq!(material.width_mm, 80.0);
    assert_eq!(material.depth_mm, 40.0);
}

#[test]
fn default_is_steel() {
    let material: Material<f64> = Material::default();
    assert_eq!(material.velocity_mps, 5900.0);
    assert_eq!(material.width_mm, 100.0);
    assert_eq!(material.depth_mm, 50.0);
}

#[test]
fn material_new_keeps_arguments() {
    let material = Material::new(5920.0, 120.0, 60.0);
    assert_eq!(material.velocity_mps, 5920.0);
    assert_eq!(material.width_mm, 120.0);
    assert_eq!(material.depth_mm, 60.0);
}

#[test]
fn all_lists_every_preset_once() {
    assert_eq!(
        MaterialPreset::all(),
        &[
            MaterialPreset::Steel,
            MaterialPreset::Aluminum,
            MaterialPreset::Copper,
            MaterialPreset::Water,
            MaterialPreset::Acrylic,
        ]
    );
}

#[test]
fn preset_is_recognised_from_its_velocity() {
    for &preset in MaterialPreset::all() {
        assert_eq!(current_material_preset(preset.velocity_mps() as i32), preset);
    }
}

#[test]
fn unknown_velocity_is_shown_as_steel() {
    assert_eq!(current_material_preset(5920), MaterialPreset::Steel);
    assert_eq!(current_material_preset(0), MaterialPreset::Steel);
    assert_eq!(current_material_preset(-1480), MaterialPreset::Steel);
    assert_eq!(current_material_preset(1480), MaterialPreset::Water);
}

#[test]
fn materials_compare_by_value() {
    let a: Material<f64> = Material::from_preset(MaterialPreset::Copper, 120.0, 60.0);
    assert_eq!(a, Material::new(4700.0, 120.0, 60.0));
    assert_ne!(a, Material::new(4700.0, 120.0, 61.0));
}
