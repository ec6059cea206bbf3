use fmc_tfm::{
    begin_drag, defect_at_position, drag_to, end_drag, finish_drag, FileRequest, handle_keyboard, place_defect, CommandHistory, Crack, Defect, DefectCommand,
    KeyInput, Material, PointReflector, Probe, Project, ToolMode, Void,
};

fn empty_project() -> Project<f64> {
    Project {
        material: Material::default(),
        probe: Probe {
            num_elements: 64,
            pitch_mm: 0.5,
            element_width_mm: 0.4,
            center_frequency_mhz: 5.0,
        },
        defects: Vec::new(),
    }
}

fn no_keys() -> KeyInput {
    KeyInput {
        ctrl: false,
        shift: false,
        z: false,
        y: false,
        delete: false,
        backspace: false,
        escape: false,
        s: false,
        o: false,
    }
}

#[test]
fn default_tool_is_select() {
    assert_eq!(ToolMode::default(), ToolMode::Select);
}

#[test]
fn placing_tools_add_their_defect() {
    let mut project = empty_project();
    let mut history = CommandHistory::new();
    assert!(!place_defect(ToolMode::Select, 1.0, 2.0, &mut project, &mut history));
    assert!(project.defects.is_empty());
    assert!(!history.can_undo());

    assert!(place_defect(ToolMode::AddPoint, 1.0, 2.0, &mut project, &mut history));
    assert!(place_defect(ToolMode::AddCrack, 3.0, 4.0, &mut project, &mut history));
    assert!(place_defect(ToolMode::AddVoid, 5.0, 6.0, &mut project, &mut history));
    assert_eq!(
        project.defects,
        vec![
            Defect::PointReflector(PointReflector { x: 1.0, y: 2.0, amplitude: 1.0 }),
            Defect::Crack(Crack { x: 3.0, y: 4.0, length: 5.0, angle: 0.0, amplitude: 1.0 }),
            Defect::Void(Void { x: 5.0, y: 6.0, radius: 2.0, amplitude: 1.0 }),
        ]
    );
    history.undo(&mut project);
    assert_eq!(project.defects.len(), 2);
}

#[test]
fn ctrl_z_undoes_and_ctrl_shift_z_redoes() {
    let mut project = empty_project();
    let mut history = CommandHistory::new();
    let mut tool = ToolMode::AddPoint;
    let mut selected = None;
    place_defect(ToolMode::AddPoint, 1.0, 2.0, &mut project, &mut history);

    let undo = KeyInput { ctrl: true, z: true, ..no_keys() };
    handle_keyboard(undo, &mut project, &mut history, &mut tool, &mut selected);
    assert!(project.defects.is_empty());

    let redo = KeyInput { ctrl: true, shift: true, z: true, ..no_keys() };
    handle_keyboard(redo, &mut project, &mut history, &mut tool, &mut selected);
    assert_eq!(project.defects.len(), 1);
    assert_eq!(tool, ToolMode::AddPoint);
}

#[test]
fn ctrl_y_redoes_and_z_without_ctrl_does_nothing() {
    let mut project = empty_project();
    let mut history = CommandHistory::new();
    let mut tool = ToolMode::Select;
    let mut selected = None;
    place_defect(ToolMode::AddVoid, 1.0, 2.0, &mut project, &mut history);
    handle_keyboard(KeyInput { z: true, ..no_keys() }, &mut project, &mut history, &mut tool, &mut selected);
    assert_eq!(project.defects.len(), 1);
    history.undo(&mut project);
    handle_keyboard(KeyInput { ctrl: true, y: true, ..no_keys() }, &mut project, &mut history, &mut tool, &mut selected);
    assert_eq!(project.defects.len(), 1);
}

#[test]
fn delete_removes_the_selected_defect_undoably() {
    let mut project = empty_project();
    let mut history = CommandHistory::new();
    let mut tool = ToolMode::Select;
    place_defect(ToolMode::AddPoint, 1.0, 1.0, &mut project, &mut history);
    place_defect(ToolMode::AddPoint, 2.0, 2.0, &mut project, &mut history);
    let mut selected = Some(0);
    handle_keyboard(KeyInput { delete: true, ..no_keys() }, &mut project, &mut history, &mut tool, &mut selected);
    assert_eq!(selected, None);
    assert_eq!(project.defects.len(), 1);
    assert_eq!(project.defects[0].position(), (2.0, 2.0));
    history.undo(&mut project);
    assert_eq!(project.defects[0].position(), (1.0, 1.0));

    // a stale selection is left alone
    let mut stale = Some(7);
    handle_keyboard(KeyInput { backspace: true, ..no_keys() }, &mut project, &mut history, &mut tool, &mut stale);
    assert_eq!(stale, Some(7));
    assert_eq!(project.defects.len(), 2);
}

#[test]
fn escape_returns_to_select_and_clears_selection() {
    let mut project = empty_project();
    let mut history: CommandHistory<DefectCommand<f64>> = CommandHistory::new();
    let mut tool = ToolMode::AddCrack;
    let mut selected = Some(3);
    handle_keyboard(KeyInput { escape: true, ..no_keys() }, &mut project, &mut history, &mut tool, &mut selected);
    assert_eq!(tool, ToolMode::Select);
    assert_eq!(selected, None);
}

#[test]
fn finished_drag_is_recorded_as_one_undoable_move() {
    let mut project = empty_project();
    let mut history = CommandHistory::new();
    place_defect(ToolMode::AddPoint, 10.0, 20.0, &mut project, &mut history);
    // the drag moves the defect directly...
    project.defects[0].set_position(15.0, 25.0);
    // ...and its end records the move
    finish_drag(0, (10.0, 20.0), &mut project, &mut history);
    assert_eq!(project.defects[0].position(), (15.0, 25.0));
    history.undo(&mut project);
    assert_eq!(project.defects[0].position(), (10.0, 20.0));
    history.redo(&mut project);
    assert_eq!(project.defects[0].position(), (15.0, 25.0));
    history.undo(&mut project);
    history.undo(&mut project);
    assert!(project.defects.is_empty());
}

#[test]
fn defect_at_position_finds_nearby() {
    let mut project = empty_project();
    project.defects.push(Defect::PointReflector(PointReflector {
        x: 10.0,
        y: 20.0,
        amplitude: 1.0,
    }));
    let near = |x: f64, y: f64, tolerance: f64| {
        move |(dx, dy): (f64, f64)| ((x - dx).powi(2) + (y - dy).powi(2)).sqrt() < tolerance
    };

    assert_eq!(defect_at_position(&project.defects, near(10.0, 20.0, 3.0)), Some(0));
    assert_eq!(defect_at_position(&project.defects, near(11.0, 20.0, 3.0)), Some(0));
    assert_eq!(defect_at_position(&project.defects, near(50.0, 50.0, 3.0)), None);
}

#[test]
fn defect_at_position_takes_the_first_hit() {
    let mut project = empty_project();
    for x in [0.0, 5.0, 6.0] {
        project.defects.push(Defect::PointReflector(PointReflector { x, y: 0.0, amplitude: 1.0 }));
    }
    let hits = |(x, _y): (f64, f64)| x > 4.0;
    assert_eq!(defect_at_position(&project.defects, hits), Some(1));
}

#[test]
fn ctrl_s_and_ctrl_o_request_save_and_open() {
    let mut project = empty_project();
    let mut history: CommandHistory<DefectCommand<f64>> = CommandHistory::new();
    let mut tool = ToolMode::AddPoint;
    let mut selected = Some(0);
    place_defect(ToolMode::AddPoint, 1.0, 2.0, &mut project, &mut history);

    let save = handle_keyboard(KeyInput { ctrl: true, s: true, ..no_keys() }, &mut project, &mut history, &mut tool, &mut selected);
    assert_eq!(save, FileRequest { save: true, open: false });
    let open = handle_keyboard(KeyInput { ctrl: true, o: true, ..no_keys() }, &mut project, &mut history, &mut tool, &mut selected);
    assert_eq!(open, FileRequest { save: false, open: true });
    let plain = handle_keyboard(KeyInput { s: true, o: true, ..no_keys() }, &mut project, &mut history, &mut tool, &mut selected);
    assert_eq!(plain, FileRequest { save: false, open: false });
    // the editing state is left alone
    assert_eq!(project.defects.len(), 1);
    assert_eq!(tool, ToolMode::AddPoint);
    assert_eq!(selected, Some(0));
}

#[test]
fn drag_moves_the_defect_and_records_one_move() {
    let mut project = empty_project();
    let mut history = CommandHistory::new();
    place_defect(ToolMode::AddPoint, 10.0, 20.0, &mut project, &mut history);
    let mut selected = None;
    let mut start = None;

    begin_drag(Some(0), &project, &mut selected, &mut start);
    assert_eq!(selected, Some(0));
    assert_eq!(start, Some((10.0, 20.0)));

    drag_to(12.0, 21.0, &mut project, selected, start);
    drag_to(15.0, 25.0, &mut project, selected, start);
    assert_eq!(project.defects[0].position(), (15.0, 25.0));

    assert!(end_drag(&mut project, &mut history, selected, &mut start));
    assert_eq!(start, None);
    assert_eq!(project.defects[0].position(), (15.0, 25.0));

    assert!(history.undo(&mut project));
    assert_eq!(project.defects[0].position(), (10.0, 20.0));
    assert!(history.undo(&mut project));
    assert!(project.defects.is_empty());
}

#[test]
fn drag_back_to_the_start_records_nothing() {
    let mut project = empty_project();
    let mut history = CommandHistory::new();
    place_defect(ToolMode::AddPoint, 10.0, 20.0, &mut project, &mut history);
    let mut selected = None;
    let mut start = None;
    begin_drag(Some(0), &project, &mut selected, &mut start);
    drag_to(30.0, 30.0, &mut project, selected, start);
    drag_to(10.0, 20.0, &mut project, selected, start);
    assert!(!end_drag(&mut project, &mut history, selected, &mut start));
    assert_eq!(start, None);
    assert!(history.undo(&mut project));
    assert!(project.defects.is_empty());
}

#[test]
fn drag_off_any_defect_changes_nothing() {
    let mut project = empty_project();
    let mut history = CommandHistory::new();
    place_defect(ToolMode::AddPoint, 10.0, 20.0, &mut project, &mut history);
    let mut selected = Some(0);
    let mut start = None;
    begin_drag(None, &project, &mut selected, &mut start);
    assert_eq!(selected, Some(0));
    assert_eq!(start, None);
    drag_to(40.0, 40.0, &mut project, selected, start);
    assert_eq!(project.defects[0].position(), (10.0, 20.0));
    assert!(!end_drag(&mut project, &mut history, selected, &mut start));
    assert!(history.undo(&mut project));
    assert!(!history.undo(&mut project));
}
