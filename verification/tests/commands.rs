use fmc_tfm::{
    AddDefect, Command, CommandHistory, Defect, DefectCommand, Material, MoveDefect,
    PointReflector, Probe, Project, RemoveDefect,
};

fn make_point(x: f64, y: f64) -> Defect<f64> {
    Defect::PointReflector(PointReflector {
        x,
        y,
        amplitude: 1.0,
    })
}

/// The default project: a 100 x 50 mm steel block, the default 64-element
/// probe and no defects.
fn default_project() -> Project<f64> {
    Project {
        material: Material::default(),
        probe: Probe {
            num_elements: 64,
            pitch_mm: 0.5,
            element_width_mm: 0.4,
            center_frequency_mhz: 5.0,
        },
        defects: Vec::new(),
    }
}

#[test]
fn add_defect_execute_and_undo() {
    let mut project = default_project();
    let mut cmd = AddDefect::new(make_point(10.0, 20.0));

    cmd.execute(&mut project);
    assert_eq!(project.defects.len(), 1);
    assert_eq!(project.defects[0].position(), (10.0, 20.0));

    cmd.undo(&mut project);
    assert!(project.defects.is_empty());
}

#[test]
fn remove_defect_execute_and_undo() {
    let mut project = default_project();
    project.defects.push(make_point(10.0, 20.0));
    project.defects.push(make_point(30.0, 40.0));

    let mut cmd = RemoveDefect::new(0);
    cmd.execute(&mut project);
    assert_eq!(project.defects.len(), 1);
    assert_eq!(project.defects[0].position(), (30.0, 40.0));

    cmd.undo(&mut project);
    assert_eq!(project.defects.len(), 2);
    assert_eq!(project.defects[0].position(), (10.0, 20.0));
}

#[test]
fn move_defect_execute_and_undo() {
    let mut project = default_project();
    project.defects.push(make_point(10.0, 20.0));

    let mut cmd = MoveDefect::new(0, (10.0, 20.0), (50.0, 60.0));
    cmd.execute(&mut project);
    assert_eq!(project.defects[0].position(), (50.0, 60.0));

    cmd.undo(&mut project);
    assert_eq!(project.defects[0].position(), (10.0, 20.0));
}

#[test]
fn command_history_undo_redo() {
    let mut project = default_project();
    let mut history = CommandHistory::new();

    assert!(!history.can_undo());
    assert!(!history.can_redo());

    history.execute(DefectCommand::Add(AddDefect::new(make_point(10.0, 20.0))), &mut project);
    assert_eq!(project.defects.len(), 1);
    assert!(history.can_undo());
    assert!(!history.can_redo());

    history.undo(&mut project);
    assert!(project.defects.is_empty());
    assert!(!history.can_undo());
    assert!(history.can_redo());

    history.redo(&mut project);
    assert_eq!(project.defects.len(), 1);
    assert!(history.can_undo());
    assert!(!history.can_redo());
}

#[test]
fn new_command_clears_redo_stack() {
    let mut project = default_project();
    let mut history = CommandHistory::new();

    history.execute(DefectCommand::Add(AddDefect::new(make_point(10.0, 20.0))), &mut project);
    history.undo(&mut project);
    assert!(history.can_redo());

    history.execute(DefectCommand::Add(AddDefect::new(make_point(30.0, 40.0))), &mut project);
    assert!(!history.can_redo());
}

#[test]
fn multiple_undo_redo_sequence() {
    let mut project = default_project();
    let mut history = CommandHistory::new();

    history.execute(DefectCommand::Add(AddDefect::new(make_point(1.0, 1.0))), &mut project);
    history.execute(DefectCommand::Add(AddDefect::new(make_point(2.0, 2.0))), &mut project);
    history.execute(DefectCommand::Add(AddDefect::new(make_point(3.0, 3.0))), &mut project);
    assert_eq!(project.defects.len(), 3);

    history.undo(&mut project);
    history.undo(&mut project);
    assert_eq!(project.defects.len(), 1);
    assert_eq!(project.defects[0].position(), (1.0, 1.0));

    history.redo(&mut project);
    assert_eq!(project.defects.len(), 2);
    assert_eq!(project.defects[1].position(), (2.0, 2.0));
}

#[test]
fn undo_and_redo_on_empty_history_report_nothing_done() {
    let mut project = default_project();
    project.defects.push(make_point(1.0, 2.0));
    let mut history: CommandHistory<DefectCommand<f64>> = CommandHistory::default();
    assert!(!history.undo(&mut project));
    assert!(!history.redo(&mut project));
    assert_eq!(project.defects, vec![make_point(1.0, 2.0)]);
}

#[test]
fn undo_all_then_redo_all_walks_the_timeline() {
    let mut project = default_project();
    let mut history = CommandHistory::new();
    let s0 = project.defects.clone();
    history.execute(DefectCommand::Add(AddDefect::new(make_point(1.0, 1.0))), &mut project);
    let s1 = project.defects.clone();
    history.execute(DefectCommand::Add(AddDefect::new(make_point(2.0, 2.0))), &mut project);
    let s2 = project.defects.clone();
    history.execute(DefectCommand::Remove(RemoveDefect::new(0)), &mut project);
    let s3 = project.defects.clone();
    history.execute(DefectCommand::Move(MoveDefect::new(0, (2.0, 2.0), (7.0, 8.0))), &mut project);
    let s4 = project.defects.clone();
    assert_eq!(s4, vec![make_point(7.0, 8.0)]);

    assert!(history.undo(&mut project));
    assert_eq!(project.defects, s3);
    assert!(history.undo(&mut project));
    assert_eq!(project.defects, s2);
    assert!(history.undo(&mut project));
    assert_eq!(project.defects, s1);
    assert!(history.undo(&mut project));
    assert_eq!(project.defects, s0);
    assert!(!history.undo(&mut project));

    assert!(history.redo(&mut project));
    assert_eq!(project.defects, s1);
    assert!(history.redo(&mut project));
    assert_eq!(project.defects, s2);
    assert!(history.redo(&mut project));
    assert_eq!(project.defects, s3);
    assert!(history.redo(&mut project));
    assert_eq!(project.defects, s4);
    assert!(!history.redo(&mut project));
}

#[test]
fn remove_past_the_end_changes_nothing_either_way() {
    let mut project = default_project();
    project.defects.push(make_point(1.0, 2.0));
    let mut cmd = RemoveDefect::new(5);
    cmd.execute(&mut project);
    assert_eq!(project.defects, vec![make_point(1.0, 2.0)]);
    cmd.undo(&mut project);
    assert_eq!(project.defects, vec![make_point(1.0, 2.0)]);
}

#[test]
fn remove_of_last_defect_is_put_back_at_its_index() {
    let mut project = default_project();
    project.defects.push(make_point(1.0, 1.0));
    project.defects.push(make_point(2.0, 2.0));
    project.defects.push(make_point(3.0, 3.0));
    let mut cmd = RemoveDefect::new(1);
    cmd.execute(&mut project);
    assert_eq!(project.defects, vec![make_point(1.0, 1.0), make_point(3.0, 3.0)]);
    cmd.undo(&mut project);
    assert_eq!(
        project.defects,
        vec![make_point(1.0, 1.0), make_point(2.0, 2.0), make_point(3.0, 3.0)]
    );
}

#[test]
fn commands_leave_material_and_probe_alone() {
    let mut project = default_project();
    let mut history = CommandHistory::new();
    history.execute(DefectCommand::Add(AddDefect::new(make_point(1.0, 1.0))), &mut project);
    history.undo(&mut project);
    history.redo(&mut project);
    assert_eq!(project.material.velocity_mps, 5900.0);
    assert_eq!(project.probe.num_elements, 64);
}

#[test]
fn executes_then_as_many_undos_restore_after_earlier_edits() {
    let mut project = default_project();
    let mut history = CommandHistory::new();
    history.execute(DefectCommand::Add(AddDefect::new(make_point(1.0, 1.0))), &mut project);
    history.execute(DefectCommand::Add(AddDefect::new(make_point(2.0, 2.0))), &mut project);
    assert!(history.undo(&mut project));
    let before = project.defects.clone();

    history.execute(DefectCommand::Add(AddDefect::new(make_point(3.0, 3.0))), &mut project);
    history.execute(DefectCommand::Move(MoveDefect::new(1, (3.0, 3.0), (4.0, 5.0))), &mut project);
    history.execute(DefectCommand::Remove(RemoveDefect::new(0)), &mut project);
    assert_eq!(project.defects, vec![make_point(4.0, 5.0)]);

    assert!(history.undo(&mut project));
    assert!(history.undo(&mut project));
    assert!(history.undo(&mut project));
    assert_eq!(project.defects, before);
    assert!(history.can_undo());
    assert!(history.undo(&mut project));
    assert!(project.defects.is_empty());
    assert!(!history.can_undo());
}

#[test]
fn undo_then_redo_gives_back_list_and_stacks() {
    let mut project = default_project();
    let mut history = CommandHistory::new();
    history.execute(DefectCommand::Add(AddDefect::new(make_point(1.0, 1.0))), &mut project);
    history.execute(DefectCommand::Add(AddDefect::new(make_point(2.0, 2.0))), &mut project);
    let after = project.defects.clone();
    assert!(history.undo(&mut project));
    assert!(history.redo(&mut project));
    assert_eq!(project.defects, after);
    assert!(history.can_undo());
    assert!(!history.can_redo());
    assert!(history.undo(&mut project));
    assert!(history.undo(&mut project));
    assert!(project.defects.is_empty());
}
