use vstd::prelude::*;

use crate::command::{
    consistent, execute_step, lemma_add_reverts, lemma_execute_keeps_consistent, lemma_move_reverts,
    lemma_redo_keeps_consistent, lemma_remove_reverts, lemma_undo_keeps_consistent, moved_to,
    redo_step, undo_step, AddDefect, Command, CommandHistory, DefectCommand, MoveDefect,
    RemoveDefect,
};
use crate::defect::{Crack, Defect, PointReflector, Void};
use crate::project::Project;
use vstd::std_specs::cmp::PartialEqSpec;

verus! {

/// What a click on the canvas does.
#[derive(Debug, Clone, Copy, PartialEq, Eq)]
pub enum ToolMode {
    Select,
    AddPoint,
    AddCrack,
    AddVoid,
}

/// The defect a placing tool puts at `(x, y)`: a unit-amplitude point
/// reflector, a horizontal 5 mm crack or a 2 mm void. The select tool places
/// nothing. Constants are converted to `F` by `F::from`.
pub open spec fn placed_defect<F: From<u32>>(tool: ToolMode, x: F, y: F, d: Option<Defect<F>>) -> bool {
    match tool {
        ToolMode::Select => d is None,
        ToolMode::AddPoint => d matches Some(Defect::PointReflector(p)) && p.x == x && p.y == y
            && call_ensures(F::from, (1u32,), p.amplitude),
        ToolMode::AddCrack => d matches Some(Defect::Crack(c)) && c.x == x && c.y == y
            && call_ensures(F::from, (5u32,), c.length) && call_ensures(F::from, (0u32,), c.angle)
            && call_ensures(F::from, (1u32,), c.amplitude),
        ToolMode::AddVoid => d matches Some(Defect::Void(v)) && v.x == x && v.y == y
            && call_ensures(F::from, (2u32,), v.radius) && call_ensures(F::from, (1u32,), v.amplitude),
    }
}

impl ToolMode {
    /// The defect this tool places at `(x, y)`, if it places one.
    pub fn new_defect<F: From<u32>>(self, x: F, y: F) -> (d: Option<Defect<F>>)
        ensures
            placed_defect(self, x, y, d),
    {
        match self {
            ToolMode::Select => None,
            ToolMode::AddPoint => Some(Defect::PointReflector(PointReflector { x, y, amplitude: F::from(1) })),
            ToolMode::AddCrack => Some(
                Defect::Crack(Crack { x, y, length: F::from(5), angle: F::from(0), amplitude: F::from(1) }),
            ),
            ToolMode::AddVoid => Some(Defect::Void(Void { x, y, radius: F::from(2), amplitude: F::from(1) })),
        }
    }
}

impl Default for ToolMode {
    fn default() -> (m: Self)
        ensures
            m == ToolMode::Select,
    {
        ToolMode::Select
    }
}

/// The keys of one frame that the editor reacts to.
#[derive(Debug, Clone, Copy, PartialEq, Eq)]
pub struct KeyInput {
    /// The Ctrl modifier is held.
    pub ctrl: bool,
    /// The Shift modifier is held.
    pub shift: bool,
    /// Z was pressed this frame.
    pub z: bool,
    /// Y was pressed this frame.
    pub y: bool,
    /// Delete was pressed this frame.
    pub delete: bool,
    /// Backspace was pressed this frame.
    pub backspace: bool,
    /// Escape was pressed this frame.
    pub escape: bool,
    /// S was pressed this frame.
    pub s: bool,
    /// O was pressed this frame.
    pub o: bool,
}

/// File operations that a frame of keys asks the application to carry out.
#[derive(Debug, Clone, Copy, PartialEq, Eq)]
pub struct FileRequest {
    /// Save the project (Ctrl+S).
    pub save: bool,
    /// Open a project (Ctrl+O).
    pub open: bool,
}

/// The state that keyboard shortcuts act on: history, defect list, tool and
/// selected defect.
pub type EditState<F> = (
    (Seq<DefectCommand<F>>, Seq<DefectCommand<F>>),
    Seq<Defect<F>>,
    ToolMode,
    Option<usize>,
);

/// Ctrl+Z undoes, Ctrl+Shift+Z redoes.
pub open spec fn after_ctrl_z<F: Copy>(keys: KeyInput, s: EditState<F>) -> EditState<F> {
    if keys.ctrl && keys.z {
        if keys.shift {
            let (h, d, _) = redo_step(s.0, s.1);
            (h, d, s.2, s.3)
        } else {
            let (h, d, _) = undo_step(s.0, s.1);
            (h, d, s.2, s.3)
        }
    } else {
        s
    }
}

/// Ctrl+Y redoes.
pub open spec fn after_ctrl_y<F: Copy>(keys: KeyInput, s: EditState<F>) -> EditState<F> {
    if keys.ctrl && keys.y {
        let (h, d, _) = redo_step(s.0, s.1);
        (h, d, s.2, s.3)
    } else {
        s
    }
}

/// Delete or Backspace removes the selected defect, if it exists, through
/// the history, and clears the selection.
pub open spec fn after_delete<F: Copy>(keys: KeyInput, s: EditState<F>) -> EditState<F> {
    if keys.delete || keys.backspace {
        match s.3 {
            Some(idx) => if idx < s.1.len() {
                let (h, d) = execute_step(
                    s.0,
                    DefectCommand::Remove(RemoveDefect::spec_with(idx, None)),
                    s.1,
                );
                (h, d, s.2, None)
            } else {
                s
            },
            None => s,
        }
    } else {
        s
    }
}

/// Escape returns to the select tool and clears the selection.
pub open spec fn after_escape<F>(keys: KeyInput, s: EditState<F>) -> EditState<F> {
    if keys.escape {
        (s.0, s.1, ToolMode::Select, None)
    } else {
        s
    }
}

/// The effect of one frame of keys, shortcuts taken in the order undo/redo
/// (Ctrl+Z), redo (Ctrl+Y), delete, escape.
pub open spec fn keyboard_step<F: Copy>(keys: KeyInput, s: EditState<F>) -> EditState<F> {
    after_escape(keys, after_delete(keys, after_ctrl_y(keys, after_ctrl_z(keys, s))))
}

/// Applies one frame of keyboard shortcuts to the editing state, and
/// reports the file operations asked for: Ctrl+S saves the project, Ctrl+O
/// opens one. Those two leave the editing state to the application.
pub fn handle_keyboard<F: Copy>(
    keys: KeyInput,
    project: &mut Project<F>,
    history: &mut CommandHistory<DefectCommand<F>>,
    tool_mode: &mut ToolMode,
    selected_defect: &mut Option<usize>,
) -> (request: FileRequest)
    ensures
        request.save == (keys.ctrl && keys.s),
        request.open == (keys.ctrl && keys.o),
        (final(history)@, final(project).defects@, *final(tool_mode), *final(selected_defect))
            == keyboard_step(
            keys,
            (old(history)@, old(project).defects@, *old(tool_mode), *old(selected_defect)),
        ),
        final(project).material == old(project).material,
        final(project).probe == old(project).probe,
{
    if keys.ctrl && keys.z {
        if keys.shift {
            history.redo(project);
        } else {
            history.undo(project);
        }
    }
    if keys.ctrl && keys.y {
        history.redo(project);
    }
    if keys.delete || keys.backspace {
        if let Some(idx) = *selected_defect {
            if idx < project.defects.len() {
                let cmd = RemoveDefect::new(idx);
                proof {
                    RemoveDefect::<F>::lemma_spec_with(idx, None);
                }
                history.execute(DefectCommand::Remove(cmd), project);
                *selected_defect = None;
            }
        }
    }
    if keys.escape {
        *tool_mode = ToolMode::Select;
        *selected_defect = None;
    }
    FileRequest { save: keys.ctrl && keys.s, open: keys.ctrl && keys.o }
}


/// The first defect, in list order, whose position `is_near` accepts (the
/// defect under the pointer), or `None` when it accepts none.
pub fn defect_at_position<F: Copy, P: Fn((F, F)) -> bool>(defects: &Vec<Defect<F>>, is_near: P) -> (r:
    Option<usize>)
    requires
        forall|i: int| 0 <= i < defects@.len() ==> call_requires(is_near, (#[trigger] defects@[i].spec_position(),)),
    ensures
        match r {
            Some(i) => i < defects@.len() && call_ensures(is_near, (defects@[i as int].spec_position(),), true)
                && forall|j: int| 0 <= j < i ==> call_ensures(is_near, (#[trigger] defects@[j].spec_position(),), false),
            None => forall|j: int| 0 <= j < defects@.len() ==> call_ensures(is_near, (#[trigger] defects@[j].spec_position(),), false),
        },
{
    let mut i: usize = 0;
    while i < defects.len()
        invariant
            i <= defects@.len(),
            forall|k: int| 0 <= k < defects@.len() ==> call_requires(is_near, (#[trigger] defects@[k].spec_position(),)),
            forall|j: int| 0 <= j < i ==> call_ensures(is_near, (#[trigger] defects@[j].spec_position(),), false),
        decreases defects@.len() - i,
    {
        let pos = defects[i].position();
        let hit = is_near(pos);
        if hit {
            return Some(i);
        }
        i = i + 1;
    }
    None
}

/// A click with a placing tool at `(x, y)` adds that tool's defect through
/// the history; with the select tool nothing changes here. Returns whether a
/// defect was added.
pub fn place_defect<F: From<u32> + Copy>(
    tool_mode: ToolMode,
    x: F,
    y: F,
    project: &mut Project<F>,
    history: &mut CommandHistory<DefectCommand<F>>,
) -> (added: bool)
    ensures
        added == (tool_mode != ToolMode::Select),
        !added ==> final(project).defects@ == old(project).defects@ && final(history)@ == old(
            history,
        )@,
        added ==> exists|d: Defect<F>|
            placed_defect(tool_mode, x, y, Some(d)) && (final(history)@, final(project).defects@)
                == execute_step(
                old(history)@,
                DefectCommand::Add(AddDefect::spec_with(Some(d))),
                old(project).defects@,
            ),
        final(project).material == old(project).material,
        final(project).probe == old(project).probe,
{
    match tool_mode.new_defect(x, y) {
        Some(defect) => {
            let cmd = AddDefect::new(defect);
            proof {
                AddDefect::<F>::lemma_spec_with(Some(defect));
            }
            history.execute(DefectCommand::Add(cmd), project);
            true
        },
        None => false,
    }
}

/// What ending a drag does to the history and the defect list: the defect
/// at `idx` is where the drag left it; the history records, as if it had
/// just been executed from the drag's starting list, the move from `old_pos`
/// to there.
pub open spec fn finish_drag_step<F: Copy>(
    h: (Seq<DefectCommand<F>>, Seq<DefectCommand<F>>),
    defects: Seq<Defect<F>>,
    idx: usize,
    old_pos: (F, F),
) -> ((Seq<DefectCommand<F>>, Seq<DefectCommand<F>>), Seq<Defect<F>>) {
    execute_step(
        h,
        DefectCommand::Move(
            MoveDefect::spec_with(idx, old_pos, defects[idx as int].spec_position()),
        ),
        moved_to(defects, idx, old_pos),
    )
}

/// Ends a drag of the defect at `idx` that started at `old_pos`: the move is
/// recorded in the history as a move from `old_pos` to where the drag left
/// the defect, and the defect stays where the drag left it.
pub fn finish_drag<F: Copy>(
    idx: usize,
    old_pos: (F, F),
    project: &mut Project<F>,
    history: &mut CommandHistory<DefectCommand<F>>,
)
    requires
        idx < old(project).defects@.len(),
    ensures
        (final(history)@, final(project).defects@) == finish_drag_step(
            old(history)@,
            old(project).defects@,
            idx,
            old_pos,
        ),
        final(project).defects@ == old(project).defects@,
        final(project).material == old(project).material,
        final(project).probe == old(project).probe,
{
    let ghost before = project.defects@;
    let new_pos = project.defects[idx].position();
    project.defects[idx].set_position(old_pos.0, old_pos.1);
    assert(project.defects@ == moved_to(before, idx, old_pos));
    let cmd = MoveDefect::new(idx, old_pos, new_pos);
    proof {
        MoveDefect::<F>::lemma_spec_with(idx, old_pos, new_pos);
    }
    history.execute(DefectCommand::Move(cmd), project);
    proof {
        crate::defect::lemma_move_twice(
            before[idx as int],
            old_pos.0,
            old_pos.1,
            new_pos.0,
            new_pos.1,
        );
        crate::defect::lemma_move_defect(before[idx as int], new_pos.0, new_pos.1);
        assert(project.defects@ =~= before);
    }
}

/// A drag ended by `finish_drag` is a single undoable step: if the history
/// agreed with the list as it was when the drag started (the defect at
/// `old_pos`), it agrees afterwards with the list as the drag left it, on
/// the timeline cut at the drag's start and extended by the dragged list.
pub proof fn lemma_finish_drag_keeps_consistent<F: Copy>(
    h: (Seq<DefectCommand<F>>, Seq<DefectCommand<F>>),
    before: Seq<Defect<F>>,
    states: Seq<Seq<Defect<F>>>,
    idx: usize,
    old_pos: (F, F),
    new_pos: (F, F),
)
    requires
        consistent(h, before, states),
        idx < before.len(),
        before[idx as int].spec_position() == old_pos,
    ensures
        ({
            let dragged = moved_to(before, idx, new_pos);
            let (h1, s1) = finish_drag_step(h, dragged, idx, old_pos);
            &&& s1 == dragged
            &&& consistent(h1, s1, states.take(h.0.len() + 1int).push(s1))
        }),
{
    let d = before[idx as int];
    let dragged = moved_to(before, idx, new_pos);
    crate::defect::lemma_move_defect(d, new_pos.0, new_pos.1);
    crate::defect::lemma_move_twice(d, new_pos.0, new_pos.1, old_pos.0, old_pos.1);
    assert(dragged[idx as int].spec_position() == new_pos);
    assert(d.with_position(old_pos.0, old_pos.1) == d);
    assert(moved_to(dragged, idx, old_pos) =~= before);
    let m = MoveDefect::spec_with(idx, old_pos, new_pos);
    MoveDefect::<F>::lemma_spec_with(idx, old_pos, new_pos);
    lemma_move_reverts(m, before);
    assert(DefectCommand::Move(m).spec_execute(before).1 =~= dragged);
    lemma_execute_keeps_consistent(h, DefectCommand::Move(m), before, states);
}

/// Placing a defect is a single undoable step: a consistent history stays
/// consistent, on the timeline cut at the current list and extended by the
/// list with the new defect appended.
pub proof fn lemma_place_keeps_consistent<F: Copy>(
    h: (Seq<DefectCommand<F>>, Seq<DefectCommand<F>>),
    before: Seq<Defect<F>>,
    states: Seq<Seq<Defect<F>>>,
    defect: Defect<F>,
)
    requires
        consistent(h, before, states),
    ensures
        ({
            let (h1, s1) = execute_step(
                h,
                DefectCommand::Add(AddDefect::spec_with(Some(defect))),
                before,
            );
            &&& s1 == before.push(defect)
            &&& consistent(h1, s1, states.take(h.0.len() + 1int).push(s1))
        }),
{
    lemma_add_reverts(defect, before);
    lemma_execute_keeps_consistent(
        h,
        DefectCommand::Add(AddDefect::spec_with(Some(defect))),
        before,
        states,
    );
}

/// Deleting a defect from the list is a single undoable step in the same way.
pub proof fn lemma_delete_keeps_consistent<F: Copy>(
    h: (Seq<DefectCommand<F>>, Seq<DefectCommand<F>>),
    before: Seq<Defect<F>>,
    states: Seq<Seq<Defect<F>>>,
    idx: usize,
)
    requires
        consistent(h, before, states),
    ensures
        ({
            let (h1, s1) = execute_step(
                h,
                DefectCommand::Remove(RemoveDefect::spec_with(idx, None)),
                before,
            );
            consistent(h1, s1, states.take(h.0.len() + 1int).push(s1))
        }),
{
    lemma_remove_reverts(idx, before);
    lemma_execute_keeps_consistent(
        h,
        DefectCommand::Remove(RemoveDefect::spec_with(idx, None)),
        before,
        states,
    );
}

/// Keyboard shortcuts never break the history: from a consistent history,
/// whatever keys are pressed, the history is consistent with some timeline
/// afterwards.
pub proof fn lemma_keyboard_keeps_consistent<F: Copy>(
    keys: KeyInput,
    s: EditState<F>,
    states: Seq<Seq<Defect<F>>>,
)
    requires
        consistent(s.0, s.1, states),
    ensures
        ({
            let s2 = keyboard_step(keys, s);
            exists|timeline: Seq<Seq<Defect<F>>>| consistent(s2.0, s2.1, timeline)
        }),
{
    let s1 = after_ctrl_z(keys, s);
    if keys.ctrl && keys.z {
        if keys.shift {
            lemma_redo_keeps_consistent(s.0, s.1, states);
        } else {
            lemma_undo_keeps_consistent(s.0, s.1, states);
        }
    }
    assert(consistent(s1.0, s1.1, states));
    let s2 = after_ctrl_y(keys, s1);
    if keys.ctrl && keys.y {
        lemma_redo_keeps_consistent(s1.0, s1.1, states);
    }
    assert(consistent(s2.0, s2.1, states));
    let s3 = after_delete(keys, s2);
    let mut timeline = states;
    if (keys.delete || keys.backspace) && s2.3 is Some && s2.3->0 < s2.1.len() {
        let idx = s2.3->0;
        let cmd = DefectCommand::Remove(RemoveDefect::spec_with(idx, None));
        lemma_remove_reverts(idx, s2.1);
        lemma_execute_keeps_consistent(s2.0, cmd, s2.1, states);
        timeline = states.take(s2.0.0.len() + 1int).push(s3.1);
    }
    assert(consistent(s3.0, s3.1, timeline));
    let s4 = after_escape(keys, s3);
    assert(s4 == keyboard_step(keys, s));
    assert(consistent(s4.0, s4.1, timeline));
}

/// Pressing the pointer with the select tool: when it is on a defect
/// (`hit`, found by `defect_at_position`), that defect is selected and its
/// position is remembered as where the drag starts; otherwise nothing
/// changes.
pub fn begin_drag<F: Copy>(
    hit: Option<usize>,
    project: &Project<F>,
    selected_defect: &mut Option<usize>,
    drag_start_pos: &mut Option<(F, F)>,
)
    requires
        hit matches Some(i) ==> i < project.defects@.len(),
    ensures
        match hit {
            Some(i) => *final(selected_defect) == Some(i) && *final(drag_start_pos) == Some(
                project.defects@[i as int].spec_position(),
            ),
            None => *final(selected_defect) == *old(selected_defect) && *final(drag_start_pos)
                == *old(drag_start_pos),
        },
{
    if let Some(idx) = hit {
        *selected_defect = Some(idx);
        *drag_start_pos = Some(project.defects[idx].position());
    }
}

/// Dragging with a drag under way moves the selected defect to the pointer
/// directly, without touching the history; with no drag under way nothing
/// changes.
pub fn drag_to<F: Copy>(
    x: F,
    y: F,
    project: &mut Project<F>,
    selected_defect: Option<usize>,
    drag_start_pos: Option<(F, F)>,
)
    requires
        drag_start_pos is Some ==> (selected_defect matches Some(i) ==> i < old(
            project,
        ).defects@.len()),
    ensures
        final(project).defects@ == match (selected_defect, drag_start_pos) {
            (Some(i), Some(_)) => old(project).defects@.update(
                i as int,
                old(project).defects@[i as int].with_position(x, y),
            ),
            _ => old(project).defects@,
        },
        final(project).material == old(project).material,
        final(project).probe == old(project).probe,
{
    if let (Some(idx), Some(_start)) = (selected_defect, drag_start_pos) {
        project.defects[idx].set_position(x, y);
    }
}

/// Two positions compare equal, coordinate by coordinate, by `F`'s `==`.
pub open spec fn same_position<F: PartialEq>(a: (F, F), b: (F, F)) -> bool {
    a.0.eq_spec(&b.0) && a.1.eq_spec(&b.1)
}

/// Releasing the pointer with a drag under way: if the defect is no longer
/// where the drag started, the drag is recorded with `finish_drag`; either
/// way the drag ends. With no drag under way nothing changes. Returns whether
/// a move was recorded.
pub fn end_drag<F: Copy + PartialEq>(
    project: &mut Project<F>,
    history: &mut CommandHistory<DefectCommand<F>>,
    selected_defect: Option<usize>,
    drag_start_pos: &mut Option<(F, F)>,
) -> (recorded: bool)
    requires
        (*old(drag_start_pos)) is Some ==> (selected_defect matches Some(i) ==> i < old(
            project,
        ).defects@.len()),
    ensures
        final(project).defects@ == old(project).defects@,
        final(project).material == old(project).material,
        final(project).probe == old(project).probe,
        match (selected_defect, *old(drag_start_pos)) {
            (Some(i), Some(start)) => {
                &&& *final(drag_start_pos) == None::<(F, F)>
                &&& recorded ==> (final(history)@, final(project).defects@) == finish_drag_step(
                    old(history)@,
                    old(project).defects@,
                    i,
                    start,
                )
                &&& !recorded ==> final(history)@ == old(history)@
                &&& F::obeys_eq_spec() ==> recorded == !same_position(
                    start,
                    old(project).defects@[i as int].spec_position(),
                )
            },
            _ => !recorded && final(history)@ == old(history)@ && *final(drag_start_pos) == *old(
                drag_start_pos,
            ),
        },
{
    if let (Some(idx), Some(old_pos)) = (selected_defect, *drag_start_pos) {
        let new_pos = project.defects[idx].position();
        let same = old_pos.0 == new_pos.0 && old_pos.1 == new_pos.1;
        let recorded = !same;
        if recorded {
            finish_drag(idx, old_pos, project, history);
        }
        *drag_start_pos = None;
        recorded
    } else {
        false
    }
}

/// Deletes the defect at `idx` of the defect list through the history (an
/// index past the end records a command that changes nothing) and clears
/// the selection if it was that defect; any other selection is kept as is.
pub fn delete_listed_defect<F: Copy>(
    idx: usize,
    project: &mut Project<F>,
    history: &mut CommandHistory<DefectCommand<F>>,
    selected_defect: &mut Option<usize>,
)
    ensures
        (final(history)@, final(project).defects@) == execute_step(
            old(history)@,
            DefectCommand::Remove(RemoveDefect::spec_with(idx, None)),
            old(project).defects@,
        ),
        *final(selected_defect) == if *old(selected_defect) == Some(idx) {
            None
        } else {
            *old(selected_defect)
        },
        final(project).material == old(project).material,
        final(project).probe == old(project).probe,
{
    let cmd = RemoveDefect::new(idx);
    proof {
        RemoveDefect::<F>::lemma_spec_with(idx, None);
    }
    history.execute(DefectCommand::Remove(cmd), project);
    if let Some(sel) = *selected_defect {
        if sel == idx {
            *selected_defect = None;
        }
    }
}

/// Delete (or Backspace) alone, with a defect of the list selected, removes
/// exactly that defect: the list afterwards is the list before without
/// element `idx`, one removal of defect `idx` is pushed on the undo stack
/// (nothing is left to redo), the selection is cleared and the tool kept;
/// undoing it gives the list back.
pub proof fn lemma_delete_key_removes_selected<F: Copy>(
    keys: KeyInput,
    s: EditState<F>,
    idx: usize,
)
    requires
        keys.delete || keys.backspace,
        !keys.z,
        !keys.y,
        !keys.escape,
        s.3 == Some(idx),
        idx < s.1.len(),
    ensures
        ({
            let s2 = keyboard_step(keys, s);
            &&& s2.1 == s.1.remove(idx as int)
            &&& s2.1.len() == s.1.len() - 1
            &&& s2.0.0 == s.0.0.push(
                DefectCommand::Remove(RemoveDefect::spec_with(idx, Some(s.1[idx as int]))),
            )
            &&& s2.0.1 == Seq::<DefectCommand<F>>::empty()
            &&& s2.3 == None::<usize>
            &&& s2.2 == s.2
            &&& undo_step(s2.0, s2.1).1 == s.1
        }),
{
    lemma_remove_reverts(idx, s.1);
    RemoveDefect::<F>::lemma_spec_with(idx, None);
    RemoveDefect::<F>::lemma_spec_with(idx, Some(s.1[idx as int]));
    let s2 = keyboard_step(keys, s);
    assert(s2.0.0.last() == DefectCommand::Remove(
        RemoveDefect::spec_with(idx, Some(s.1[idx as int])),
    ));
    assert(s2.0.0.drop_last() =~= s.0.0);
}

/// Delete or Backspace with no defect selected, or with a selection past the
/// end of the list, changes nothing but what Escape does.
pub proof fn lemma_delete_key_without_target<F: Copy>(keys: KeyInput, s: EditState<F>)
    requires
        !keys.z,
        !keys.y,
        !keys.escape,
        s.3 matches Some(i) ==> i >= s.1.len(),
    ensures
        keyboard_step(keys, s) == s,
{
}

/// Backspace does what Delete does: a frame with Backspace in place of
/// Delete has the same effect on every editing state.
pub proof fn lemma_backspace_is_delete<F: Copy>(keys: KeyInput, s: EditState<F>)
    requires
        keys.backspace,
        !keys.delete,
    ensures
        keyboard_step(keys, s) == keyboard_step(
            KeyInput {
                ctrl: keys.ctrl,
                shift: keys.shift,
                z: keys.z,
                y: keys.y,
                delete: true,
                backspace: false,
                escape: keys.escape,
                s: keys.s,
                o: keys.o,
            },
            s,
        ),
{
}

/// Ctrl+Z alone undoes exactly one edit.
pub proof fn lemma_ctrl_z_undoes_once<F: Copy>(keys: KeyInput, s: EditState<F>)
    requires
        keys.ctrl,
        keys.z,
        !keys.shift,
        !keys.y,
        !keys.delete,
        !keys.backspace,
        !keys.escape,
    ensures
        ({
            let (h, d, _) = undo_step(s.0, s.1);
            keyboard_step(keys, s) == (h, d, s.2, s.3)
        }),
{
}

/// Ctrl+Shift+Z (without Y) redoes exactly one edit.
pub proof fn lemma_ctrl_shift_z_redoes_once<F: Copy>(keys: KeyInput, s: EditState<F>)
    requires
        keys.ctrl,
        keys.shift,
        keys.z,
        !keys.y,
        !keys.delete,
        !keys.backspace,
        !keys.escape,
    ensures
        ({
            let (h, d, _) = redo_step(s.0, s.1);
            keyboard_step(keys, s) == (h, d, s.2, s.3)
        }),
{
}

/// Ctrl+Y (without Z) redoes exactly one edit.
pub proof fn lemma_ctrl_y_redoes_once<F: Copy>(keys: KeyInput, s: EditState<F>)
    requires
        keys.ctrl,
        keys.y,
        !keys.z,
        !keys.delete,
        !keys.backspace,
        !keys.escape,
    ensures
        ({
            let (h, d, _) = redo_step(s.0, s.1);
            keyboard_step(keys, s) == (h, d, s.2, s.3)
        }),
{
}

/// On a consistent history with `k` edits to undo and at least one to redo,
/// Ctrl+Shift+Z alone or Ctrl+Y alone moves one state forward along the
/// timeline: the list becomes `states[k + 1]`, one more edit can be undone
/// and one fewer redone.
pub proof fn lemma_redo_key_moves_one_state<F: Copy>(
    keys: KeyInput,
    s: EditState<F>,
    states: Seq<Seq<Defect<F>>>,
)
    requires
        consistent(s.0, s.1, states),
        s.0.1.len() >= 1,
        keys.ctrl,
        (keys.shift && keys.z && !keys.y) || (keys.y && !keys.z),
        !keys.delete,
        !keys.backspace,
        !keys.escape,
    ensures
        ({
            let s2 = keyboard_step(keys, s);
            &&& s2.1 == states[s.0.0.len() + 1int]
            &&& s2.0.0.len() == s.0.0.len() + 1
            &&& s2.0.1.len() == s.0.1.len() - 1
        }),
{
    lemma_redo_keeps_consistent(s.0, s.1, states);
}

/// On a consistent history with `k >= 1` edits to undo, Ctrl+Z alone moves
/// one state back along the timeline: the list becomes `states[k - 1]`.
pub proof fn lemma_undo_key_moves_one_state<F: Copy>(
    keys: KeyInput,
    s: EditState<F>,
    states: Seq<Seq<Defect<F>>>,
)
    requires
        consistent(s.0, s.1, states),
        s.0.0.len() >= 1,
        keys.ctrl,
        keys.z,
        !keys.shift,
        !keys.y,
        !keys.delete,
        !keys.backspace,
        !keys.escape,
    ensures
        ({
            let s2 = keyboard_step(keys, s);
            &&& s2.1 == states[s.0.0.len() - 1]
            &&& s2.0.0.len() == s.0.0.len() - 1
            &&& s2.0.1.len() == s.0.1.len() + 1
        }),
{
    lemma_undo_keeps_consistent(s.0, s.1, states);
}

/// Escape alone returns to the select tool and clears the selection,
/// leaving the history and the defect list as they were.
pub proof fn lemma_escape_key_resets_tool<F: Copy>(keys: KeyInput, s: EditState<F>)
    requires
        keys.escape,
        !keys.z,
        !keys.y,
        !keys.delete,
        !keys.backspace,
    ensures
        keyboard_step(keys, s) == (s.0, s.1, ToolMode::Select, None::<usize>),
{
}

/// A frame without Z, Y, Delete, Backspace or Escape changes nothing.
pub proof fn lemma_other_keys_change_nothing<F: Copy>(keys: KeyInput, s: EditState<F>)
    requires
        !keys.z,
        !keys.y,
        !keys.delete,
        !keys.backspace,
        !keys.escape,
    ensures
        keyboard_step(keys, s) == s,
{
}

} // verus!
