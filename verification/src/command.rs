use vstd::prelude::*;

use crate::defect::Defect;
use crate::project::Project;

verus! {

/// An undoable edit of a project's defect list.
///
/// `spec_execute` and `spec_undo` say what one call does: from the command
/// and the defect list before the call, the command and the defect list
/// after it. Neither call touches the material or the probe.
pub trait Command<F>: Sized {
    spec fn spec_execute(self, defects: Seq<Defect<F>>) -> (Self, Seq<Defect<F>>);

    spec fn spec_undo(self, defects: Seq<Defect<F>>) -> (Self, Seq<Defect<F>>);

    fn execute(&mut self, project: &mut Project<F>)
        ensures
            (*final(self), final(project).defects@) == old(self).spec_execute(
                old(project).defects@,
            ),
            final(project).material == old(project).material,
            final(project).probe == old(project).probe,
    ;

    fn undo(&mut self, project: &mut Project<F>)
        ensures
            (*final(self), final(project).defects@) == old(self).spec_undo(old(project).defects@),
            final(project).material == old(project).material,
            final(project).probe == old(project).probe,
    ;
}

/// Appends a defect; undoing removes the last defect of the list.
pub struct AddDefect<F> {
    defect: Option<Defect<F>>,
}

impl<F> AddDefect<F> {
    /// The defect that the next `execute` appends (`None` once it has been
    /// appended, until an `undo` takes it back).
    pub closed spec fn pending(self) -> Option<Defect<F>> {
        self.defect
    }

    pub fn new(defect: Defect<F>) -> (c: Self)
        ensures
            c.pending() == Some(defect),
    {
        AddDefect { defect: Some(defect) }
    }
}

impl<F> Command<F> for AddDefect<F> {
    open spec fn spec_execute(self, defects: Seq<Defect<F>>) -> (Self, Seq<Defect<F>>) {
        match self.pending() {
            Some(d) => (AddDefect::spec_with(None), defects.push(d)),
            None => (self, defects),
        }
    }

    open spec fn spec_undo(self, defects: Seq<Defect<F>>) -> (Self, Seq<Defect<F>>) {
        if defects.len() > 0 {
            (AddDefect::spec_with(Some(defects.last())), defects.drop_last())
        } else {
            (self, defects)
        }
    }

    fn execute(&mut self, project: &mut Project<F>) {
        if let Some(defect) = self.defect.take() {
            project.defects.push(defect);
        }
    }

    fn undo(&mut self, project: &mut Project<F>) {
        if let Some(defect) = project.defects.pop() {
            self.defect = Some(defect);
        }
    }
}

impl<F> AddDefect<F> {
    /// The add command whose pending defect is `defect`.
    pub closed spec fn spec_with(defect: Option<Defect<F>>) -> Self {
        AddDefect { defect }
    }

    pub proof fn lemma_spec_with(defect: Option<Defect<F>>)
        ensures
            Self::spec_with(defect).pending() == defect,
            forall|c: Self| #[trigger] c.pending() == defect ==> c == Self::spec_with(defect),
    {
    }
}

/// Removes the defect at `index`; undoing puts it back at the same index.
pub struct RemoveDefect<F> {
    index: usize,
    defect: Option<Defect<F>>,
}

impl<F> RemoveDefect<F> {
    /// The index of the defect that the command removes.
    pub closed spec fn spec_index(self) -> usize {
        self.index
    }

    /// The defect removed by the last `execute` and not yet put back.
    pub closed spec fn removed(self) -> Option<Defect<F>> {
        self.defect
    }

    pub closed spec fn spec_with(index: usize, defect: Option<Defect<F>>) -> Self {
        RemoveDefect { index, defect }
    }

    pub proof fn lemma_spec_with(index: usize, defect: Option<Defect<F>>)
        ensures
            Self::spec_with(index, defect).spec_index() == index,
            Self::spec_with(index, defect).removed() == defect,
            forall|c: Self|
                #![trigger c.spec_index(), c.removed()]
                c.spec_index() == index && c.removed() == defect ==> c == Self::spec_with(
                    index,
                    defect,
                ),
    {
    }

    pub fn new(index: usize) -> (c: Self)
        ensures
            c.spec_index() == index,
            c.removed() == None::<Defect<F>>,
    {
        RemoveDefect { index, defect: None }
    }
}

impl<F> Command<F> for RemoveDefect<F> {
    open spec fn spec_execute(self, defects: Seq<Defect<F>>) -> (Self, Seq<Defect<F>>) {
        if self.spec_index() < defects.len() {
            (
                RemoveDefect::spec_with(self.spec_index(), Some(defects[self.spec_index() as int])),
                defects.remove(self.spec_index() as int),
            )
        } else {
            (self, defects)
        }
    }

    open spec fn spec_undo(self, defects: Seq<Defect<F>>) -> (Self, Seq<Defect<F>>) {
        match self.removed() {
            Some(d) => (
                RemoveDefect::spec_with(self.spec_index(), None),
                if self.spec_index() <= defects.len() {
                    defects.insert(self.spec_index() as int, d)
                } else {
                    defects.push(d)
                },
            ),
            None => (self, defects),
        }
    }

    fn execute(&mut self, project: &mut Project<F>) {
        if self.index < project.defects.len() {
            self.defect = Some(project.defects.remove(self.index));
        }
    }

    fn undo(&mut self, project: &mut Project<F>) {
        if let Some(defect) = self.defect.take() {
            if self.index <= project.defects.len() {
                project.defects.insert(self.index, defect);
            } else {
                project.defects.push(defect);
            }
        }
    }
}

/// Moves the defect at `index` from `old_pos` to `new_pos`; undoing moves it
/// back to `old_pos`.
pub struct MoveDefect<F> {
    index: usize,
    old_pos: (F, F),
    new_pos: (F, F),
}

impl<F> MoveDefect<F> {
    pub closed spec fn spec_index(self) -> usize {
        self.index
    }

    pub closed spec fn spec_old_pos(self) -> (F, F) {
        self.old_pos
    }

    pub closed spec fn spec_new_pos(self) -> (F, F) {
        self.new_pos
    }

    pub closed spec fn spec_with(index: usize, old_pos: (F, F), new_pos: (F, F)) -> Self {
        MoveDefect { index, old_pos, new_pos }
    }

    pub proof fn lemma_spec_with(index: usize, old_pos: (F, F), new_pos: (F, F))
        ensures
            Self::spec_with(index, old_pos, new_pos).spec_index() == index,
            Self::spec_with(index, old_pos, new_pos).spec_old_pos() == old_pos,
            Self::spec_with(index, old_pos, new_pos).spec_new_pos() == new_pos,
            forall|c: Self|
                #![trigger c.spec_index(), c.spec_old_pos(), c.spec_new_pos()]
                c.spec_index() == index && c.spec_old_pos() == old_pos && c.spec_new_pos()
                    == new_pos ==> c == Self::spec_with(index, old_pos, new_pos),
    {
    }

    pub fn new(index: usize, old_pos: (F, F), new_pos: (F, F)) -> (c: Self)
        ensures
            c.spec_index() == index,
            c.spec_old_pos() == old_pos,
            c.spec_new_pos() == new_pos,
    {
        MoveDefect { index, old_pos, new_pos }
    }
}

/// `defects` with the defect at `index`, if there is one, moved to `pos`.
pub open spec fn moved_to<F>(defects: Seq<Defect<F>>, index: usize, pos: (F, F)) -> Seq<
    Defect<F>,
> {
    if index < defects.len() {
        defects.update(index as int, defects[index as int].with_position(pos.0, pos.1))
    } else {
        defects
    }
}

impl<F: Copy> Command<F> for MoveDefect<F> {
    open spec fn spec_execute(self, defects: Seq<Defect<F>>) -> (Self, Seq<Defect<F>>) {
        (self, moved_to(defects, self.spec_index(), self.spec_new_pos()))
    }

    open spec fn spec_undo(self, defects: Seq<Defect<F>>) -> (Self, Seq<Defect<F>>) {
        (self, moved_to(defects, self.spec_index(), self.spec_old_pos()))
    }

    fn execute(&mut self, project: &mut Project<F>) {
        if self.index < project.defects.len() {
            project.defects[self.index].set_position(self.new_pos.0, self.new_pos.1);
        }
    }

    fn undo(&mut self, project: &mut Project<F>) {
        if self.index < project.defects.len() {
            project.defects[self.index].set_position(self.old_pos.0, self.old_pos.1);
        }
    }
}


/// Any of the editing commands, so that one history can hold them all.
pub enum DefectCommand<F> {
    Add(AddDefect<F>),
    Remove(RemoveDefect<F>),
    Move(MoveDefect<F>),
}

impl<F: Copy> Command<F> for DefectCommand<F> {
    open spec fn spec_execute(self, defects: Seq<Defect<F>>) -> (Self, Seq<Defect<F>>) {
        match self {
            DefectCommand::Add(c) => {
                let (c2, d2) = c.spec_execute(defects);
                (DefectCommand::Add(c2), d2)
            },
            DefectCommand::Remove(c) => {
                let (c2, d2) = c.spec_execute(defects);
                (DefectCommand::Remove(c2), d2)
            },
            DefectCommand::Move(c) => {
                let (c2, d2) = c.spec_execute(defects);
                (DefectCommand::Move(c2), d2)
            },
        }
    }

    open spec fn spec_undo(self, defects: Seq<Defect<F>>) -> (Self, Seq<Defect<F>>) {
        match self {
            DefectCommand::Add(c) => {
                let (c2, d2) = c.spec_undo(defects);
                (DefectCommand::Add(c2), d2)
            },
            DefectCommand::Remove(c) => {
                let (c2, d2) = c.spec_undo(defects);
                (DefectCommand::Remove(c2), d2)
            },
            DefectCommand::Move(c) => {
                let (c2, d2) = c.spec_undo(defects);
                (DefectCommand::Move(c2), d2)
            },
        }
    }

    fn execute(&mut self, project: &mut Project<F>) {
        match self {
            DefectCommand::Add(c) => c.execute(project),
            DefectCommand::Remove(c) => c.execute(project),
            DefectCommand::Move(c) => c.execute(project),
        }
    }

    fn undo(&mut self, project: &mut Project<F>) {
        match self {
            DefectCommand::Add(c) => c.undo(project),
            DefectCommand::Remove(c) => c.undo(project),
            DefectCommand::Move(c) => c.undo(project),
        }
    }
}

/// The undo and redo stacks of an editing session, bottom first.
pub type HistoryModel<C> = (Seq<C>, Seq<C>);

/// What `CommandHistory::execute` does: run the command, push it on the undo
/// stack and forget every command that could have been redone.
pub open spec fn execute_step<F, C: Command<F>>(
    h: HistoryModel<C>,
    cmd: C,
    defects: Seq<Defect<F>>,
) -> (HistoryModel<C>, Seq<Defect<F>>) {
    let (done, after) = cmd.spec_execute(defects);
    ((h.0.push(done), Seq::empty()), after)
}

/// What `CommandHistory::undo` does: when the undo stack is not empty, undo
/// its top command and move it to the redo stack. The flag tells whether a
/// command was undone.
pub open spec fn undo_step<F, C: Command<F>>(h: HistoryModel<C>, defects: Seq<Defect<F>>) -> (
    HistoryModel<C>,
    Seq<Defect<F>>,
    bool,
) {
    if h.0.len() > 0 {
        let (undone, before) = h.0.last().spec_undo(defects);
        ((h.0.drop_last(), h.1.push(undone)), before, true)
    } else {
        (h, defects, false)
    }
}

/// What `CommandHistory::redo` does: when the redo stack is not empty,
/// execute its top command again and move it back to the undo stack.
pub open spec fn redo_step<F, C: Command<F>>(h: HistoryModel<C>, defects: Seq<Defect<F>>) -> (
    HistoryModel<C>,
    Seq<Defect<F>>,
    bool,
) {
    if h.1.len() > 0 {
        let (done, after) = h.1.last().spec_execute(defects);
        ((h.0.push(done), h.1.drop_last()), after, true)
    } else {
        (h, defects, false)
    }
}

/// Undo and redo stacks of executed commands.
pub struct CommandHistory<C> {
    undo_stack: Vec<C>,
    redo_stack: Vec<C>,
}

impl<C> View for CommandHistory<C> {
    type V = HistoryModel<C>;

    closed spec fn view(&self) -> HistoryModel<C> {
        (self.undo_stack@, self.redo_stack@)
    }
}

impl<C> Default for CommandHistory<C> {
    fn default() -> (h: Self)
        ensures
            h@ == (Seq::<C>::empty(), Seq::<C>::empty()),
    {
        CommandHistory { undo_stack: Vec::new(), redo_stack: Vec::new() }
    }
}

impl<C> CommandHistory<C> {
    /// An empty history: nothing to undo, nothing to redo.
    pub fn new() -> (h: Self)
        ensures
            h@ == (Seq::<C>::empty(), Seq::<C>::empty()),
    {
        Self::default()
    }

    /// Runs `cmd` on the project and records it for undo; whatever could be
    /// redone before is dropped.
    pub fn execute<F>(&mut self, cmd: C, project: &mut Project<F>) where C: Command<F>
        ensures
            (final(self)@, final(project).defects@) == execute_step(
                old(self)@,
                cmd,
                old(project).defects@,
            ),
            final(project).material == old(project).material,
            final(project).probe == old(project).probe,
    {
        let mut cmd = cmd;
        cmd.execute(project);
        self.undo_stack.push(cmd);
        self.redo_stack.clear();
    }

    /// Undoes the most recent command, if any; returns whether one was undone.
    pub fn undo<F>(&mut self, project: &mut Project<F>) -> (undone: bool) where C: Command<F>
        ensures
            (final(self)@, final(project).defects@, undone) == undo_step(
                old(self)@,
                old(project).defects@,
            ),
            final(project).material == old(project).material,
            final(project).probe == old(project).probe,
    {
        if let Some(mut cmd) = self.undo_stack.pop() {
            cmd.undo(project);
            self.redo_stack.push(cmd);
            true
        } else {
            false
        }
    }

    /// Re-executes the most recently undone command, if any; returns whether
    /// one was redone.
    pub fn redo<F>(&mut self, project: &mut Project<F>) -> (redone: bool) where C: Command<F>
        ensures
            (final(self)@, final(project).defects@, redone) == redo_step(
                old(self)@,
                old(project).defects@,
            ),
            final(project).material == old(project).material,
            final(project).probe == old(project).probe,
    {
        if let Some(mut cmd) = self.redo_stack.pop() {
            cmd.execute(project);
            self.undo_stack.push(cmd);
            true
        } else {
            false
        }
    }

    pub fn can_undo(&self) -> (b: bool)
        ensures
            b == (self@.0.len() > 0),
    {
        !self.undo_stack.is_empty()
    }

    pub fn can_redo(&self) -> (b: bool)
        ensures
            b == (self@.1.len() > 0),
    {
        !self.redo_stack.is_empty()
    }
}


/// Executing `cmd` on `before` and then undoing it gives back both the
/// defect list and the command as they were.
pub open spec fn reverts<F, C: Command<F>>(cmd: C, before: Seq<Defect<F>>) -> bool {
    let (done, after) = cmd.spec_execute(before);
    done.spec_undo(after) == (cmd, before)
}

/// A fresh add command always reverts: undoing it removes exactly the defect
/// it appended.
pub proof fn lemma_add_reverts<F: Copy>(defect: Defect<F>, before: Seq<Defect<F>>)
    ensures
        DefectCommand::Add(AddDefect::spec_with(Some(defect))).spec_execute(before).1
            == before.push(defect),
        reverts(DefectCommand::Add(AddDefect::spec_with(Some(defect))), before),
{
    AddDefect::<F>::lemma_spec_with(Some(defect));
    AddDefect::<F>::lemma_spec_with(None);
    assert(before.push(defect).drop_last() =~= before);
}

/// A fresh remove command always reverts: undoing it puts the removed defect
/// back at its index; at an index past the end it does nothing either way.
pub proof fn lemma_remove_reverts<F: Copy>(index: usize, before: Seq<Defect<F>>)
    ensures
        DefectCommand::Remove(RemoveDefect::spec_with(index, None)).spec_execute(before).1 == (
        if index < before.len() {
            before.remove(index as int)
        } else {
            before
        }),
        reverts(DefectCommand::Remove(RemoveDefect::spec_with(index, None)), before),
{
    RemoveDefect::<F>::lemma_spec_with(index, None);
    if index < before.len() {
        RemoveDefect::<F>::lemma_spec_with(index, Some(before[index as int]));
        assert(before.remove(index as int).insert(index as int, before[index as int]) =~= before);
    }
}

/// A move command reverts exactly when it starts from where the defect is
/// (or names no defect at all).
pub proof fn lemma_move_reverts<F: Copy>(cmd: MoveDefect<F>, before: Seq<Defect<F>>)
    ensures
        DefectCommand::Move(cmd).spec_execute(before).1 == moved_to(
            before,
            cmd.spec_index(),
            cmd.spec_new_pos(),
        ),
        reverts(DefectCommand::Move(cmd), before) <==> (cmd.spec_index() >= before.len()
            || before[cmd.spec_index() as int].spec_position() == cmd.spec_old_pos()),
{
    let i = cmd.spec_index();
    if i < before.len() {
        let d = before[i as int];
        let old_pos = cmd.spec_old_pos();
        let new_pos = cmd.spec_new_pos();
        let after = moved_to(before, i, new_pos);
        let back = moved_to(after, i, old_pos);
        assert(back[i as int] == d.with_position(old_pos.0, old_pos.1));
        if d.spec_position() == old_pos {
            assert(back =~= before);
        }
        if back == before {
            assert(d.with_position(old_pos.0, old_pos.1).spec_position() == old_pos);
        }
    }
}

/// Undoing a command right after executing it restores the defect list and
/// leaves that command, as it was before it ran, alone on the redo stack;
/// redoing it then comes back to the state right after the execution.
pub proof fn lemma_execute_undo_redo<F, C: Command<F>>(
    h: HistoryModel<C>,
    cmd: C,
    before: Seq<Defect<F>>,
)
    requires
        reverts(cmd, before),
    ensures
        ({
            let (h1, s1) = execute_step(h, cmd, before);
            let (h2, s2, undone) = undo_step(h1, s1);
            let (h3, s3, redone) = redo_step(h2, s2);
            &&& undone && redone
            &&& s2 == before
            &&& h2 == (h.0, seq![cmd])
            &&& s3 == s1
            &&& h3 == h1
        }),
{
    let (done, after) = cmd.spec_execute(before);
    let h1 = (h.0.push(done), Seq::<C>::empty());
    assert(h1.0.drop_last() =~= h.0);
    assert(Seq::<C>::empty().push(cmd) =~= seq![cmd]);
    assert(seq![cmd].drop_last() =~= Seq::<C>::empty());
}

/// `done` is the executed form of a step from `before` to `after`: undoing it
/// goes back to `before`, and executing what that undo leaves goes forward to
/// `after` again with `done` back.
pub open spec fn undoes_step<F, C: Command<F>>(
    done: C,
    before: Seq<Defect<F>>,
    after: Seq<Defect<F>>,
) -> bool {
    let (undone, back) = done.spec_undo(after);
    &&& back == before
    &&& undone.spec_execute(before) == (done, after)
}

/// `undone` is the undone form of a step from `before` to `after`.
pub open spec fn redoes_step<F, C: Command<F>>(
    undone: C,
    before: Seq<Defect<F>>,
    after: Seq<Defect<F>>,
) -> bool {
    let (done, forward) = undone.spec_execute(before);
    &&& forward == after
    &&& done.spec_undo(after) == (undone, before)
}

/// The history and the current defect list agree with a timeline `states`
/// of defect lists: the undo stack holds the steps from `states[0]` to the
/// current list, the redo stack (top first) the steps from there to the last
/// state.
pub open spec fn consistent<F, C: Command<F>>(
    h: HistoryModel<C>,
    current: Seq<Defect<F>>,
    states: Seq<Seq<Defect<F>>>,
) -> bool {
    let k = h.0.len();
    let n = h.0.len() + h.1.len();
    &&& states.len() == n + 1
    &&& states[k as int] == current
    &&& forall|i: int| 0 <= i < k ==> undoes_step(#[trigger] h.0[i], states[i], states[i + 1])
    &&& forall|j: int|
        0 <= j < h.1.len() ==> redoes_step(#[trigger] h.1[j], states[n - 1 - j], states[n - j])
}

/// A new history agrees with the one-state timeline of the current list.
pub proof fn lemma_new_history_consistent<F, C: Command<F>>(current: Seq<Defect<F>>)
    ensures
        consistent((Seq::<C>::empty(), Seq::<C>::empty()), current, seq![current]),
{
}

/// Executing a command that reverts keeps the history consistent: the
/// timeline is cut at the current state and extended by the new one.
pub proof fn lemma_execute_keeps_consistent<F, C: Command<F>>(
    h: HistoryModel<C>,
    cmd: C,
    current: Seq<Defect<F>>,
    states: Seq<Seq<Defect<F>>>,
)
    requires
        consistent(h, current, states),
        reverts(cmd, current),
    ensures
        ({
            let (h1, s1) = execute_step(h, cmd, current);
            consistent(h1, s1, states.take(h.0.len() + 1int).push(s1))
        }),
{
    let k = h.0.len();
    let (h1, s1) = execute_step(h, cmd, current);
    let states1 = states.take(k + 1int).push(s1);
    assert forall|i: int| 0 <= i < h1.0.len() implies undoes_step(
        #[trigger] h1.0[i],
        states1[i],
        states1[i + 1],
    ) by {
        if i < k {
            assert(h1.0[i] == h.0[i]);
            assert(undoes_step(h.0[i], states[i], states[i + 1]));
        }
    }
}

/// Undoing keeps the history consistent with the same timeline and moves
/// one state back along it.
pub proof fn lemma_undo_keeps_consistent<F, C: Command<F>>(
    h: HistoryModel<C>,
    current: Seq<Defect<F>>,
    states: Seq<Seq<Defect<F>>>,
)
    requires
        consistent(h, current, states),
    ensures
        ({
            let (h1, s1, undone) = undo_step(h, current);
            &&& undone == (h.0.len() > 0)
            &&& undone ==> s1 == states[h.0.len() - 1]
            &&& !undone ==> s1 == current && h1 == h
            &&& consistent(h1, s1, states)
        }),
{
    let k = h.0.len();
    let n = h.0.len() + h.1.len();
    if k > 0 {
        let (h1, s1, undone) = undo_step(h, current);
        assert(undoes_step(h.0[k - 1], states[k - 1], states[k as int]));
        assert forall|i: int| 0 <= i < h1.0.len() implies undoes_step(
            #[trigger] h1.0[i],
            states[i],
            states[i + 1],
        ) by {
            assert(h1.0[i] == h.0[i]);
        }
        assert forall|j: int| 0 <= j < h1.1.len() implies redoes_step(
            #[trigger] h1.1[j],
            states[n - 1 - j],
            states[n - j],
        ) by {
            if j < h.1.len() {
                assert(h1.1[j] == h.1[j]);
            }
        }
    }
}

/// Redoing keeps the history consistent with the same timeline and moves
/// one state forward along it.
pub proof fn lemma_redo_keeps_consistent<F, C: Command<F>>(
    h: HistoryModel<C>,
    current: Seq<Defect<F>>,
    states: Seq<Seq<Defect<F>>>,
)
    requires
        consistent(h, current, states),
    ensures
        ({
            let (h1, s1, redone) = redo_step(h, current);
            &&& redone == (h.1.len() > 0)
            &&& redone ==> s1 == states[h.0.len() + 1int]
            &&& !redone ==> s1 == current && h1 == h
            &&& consistent(h1, s1, states)
        }),
{
    let k = h.0.len();
    let r = h.1.len();
    let n = k + r;
    if r > 0 {
        let (h1, s1, redone) = redo_step(h, current);
        assert(redoes_step(h.1[r - 1], states[n - 1 - (r - 1)], states[n - (r - 1)]));
        assert(n - 1 - (r - 1) == k);
        assert forall|i: int| 0 <= i < h1.0.len() implies undoes_step(
            #[trigger] h1.0[i],
            states[i],
            states[i + 1],
        ) by {
            if i < k {
                assert(h1.0[i] == h.0[i]);
            }
        }
        assert forall|j: int| 0 <= j < h1.1.len() implies redoes_step(
            #[trigger] h1.1[j],
            states[n - 1 - j],
            states[n - j],
        ) by {
            assert(h1.1[j] == h.1[j]);
        }
    }
}


/// The history and defect list after `n` consecutive calls of `undo`.
pub open spec fn undo_times<F, C: Command<F>>(
    h: HistoryModel<C>,
    defects: Seq<Defect<F>>,
    n: nat,
) -> (HistoryModel<C>, Seq<Defect<F>>)
    decreases n,
{
    if n == 0 {
        (h, defects)
    } else {
        let (h1, d1, _) = undo_step(h, defects);
        undo_times(h1, d1, (n - 1) as nat)
    }
}

/// The history and defect list after `n` consecutive calls of `redo`.
pub open spec fn redo_times<F, C: Command<F>>(
    h: HistoryModel<C>,
    defects: Seq<Defect<F>>,
    n: nat,
) -> (HistoryModel<C>, Seq<Defect<F>>)
    decreases n,
{
    if n == 0 {
        (h, defects)
    } else {
        let (h1, d1, _) = redo_step(h, defects);
        redo_times(h1, d1, (n - 1) as nat)
    }
}

/// The history and defect list after executing `cmds` in order.
pub open spec fn execute_all<F, C: Command<F>>(
    h: HistoryModel<C>,
    cmds: Seq<C>,
    defects: Seq<Defect<F>>,
) -> (HistoryModel<C>, Seq<Defect<F>>)
    decreases cmds.len(),
{
    if cmds.len() == 0 {
        (h, defects)
    } else {
        let (h1, d1) = execute_step(h, cmds[0], defects);
        execute_all(h1, cmds.drop_first(), d1)
    }
}

/// Each command of `cmds` reverts in the state in which it runs when they
/// are executed in order from `defects`.
pub open spec fn each_reverts<F, C: Command<F>>(cmds: Seq<C>, defects: Seq<Defect<F>>) -> bool
    decreases cmds.len(),
{
    cmds.len() == 0 || (reverts(cmds[0], defects) && each_reverts(
        cmds.drop_first(),
        cmds[0].spec_execute(defects).1,
    ))
}

/// Undoing `n` times (at most the undo stack's height) walks `n` states back
/// along the timeline; undoing the whole stack gives back its first state.
pub proof fn lemma_undo_times<F, C: Command<F>>(
    h: HistoryModel<C>,
    current: Seq<Defect<F>>,
    states: Seq<Seq<Defect<F>>>,
    n: nat,
)
    requires
        consistent(h, current, states),
        n <= h.0.len(),
    ensures
        ({
            let (h1, s1) = undo_times(h, current, n);
            &&& s1 == states[h.0.len() - n]
            &&& h1.0 == h.0.take(h.0.len() - n)
            &&& h1.0.len() + h1.1.len() == h.0.len() + h.1.len()
            &&& consistent(h1, s1, states)
        }),
    decreases n,
{
    if n > 0 {
        lemma_undo_keeps_consistent(h, current, states);
        let (h1, d1, _) = undo_step(h, current);
        lemma_undo_times(h1, d1, states, (n - 1) as nat);
        assert(h1.0 == h.0.drop_last());
        assert(h1.0.take(h1.0.len() - (n - 1)) =~= h.0.take(h.0.len() - n));
    } else {
        assert(h.0.take(h.0.len() as int) =~= h.0);
    }
}

/// Redoing `n` times (at most the redo stack's height) walks `n` states
/// forward along the timeline.
pub proof fn lemma_redo_times<F, C: Command<F>>(
    h: HistoryModel<C>,
    current: Seq<Defect<F>>,
    states: Seq<Seq<Defect<F>>>,
    n: nat,
)
    requires
        consistent(h, current, states),
        n <= h.1.len(),
    ensures
        ({
            let (h1, s1) = redo_times(h, current, n);
            &&& s1 == states[(h.0.len() + n) as int]
            &&& h1.0.len() == h.0.len() + n
            &&& h1.0.len() + h1.1.len() == h.0.len() + h.1.len()
            &&& consistent(h1, s1, states)
        }),
    decreases n,
{
    if n > 0 {
        lemma_redo_keeps_consistent(h, current, states);
        let (h1, d1, _) = redo_step(h, current);
        lemma_redo_times(h1, d1, states, (n - 1) as nat);
    }
}

/// The history and list are consistent with some timeline that keeps the
/// first `k + 1` states of `states`.
pub open spec fn continues_timeline<F, C: Command<F>>(
    h: HistoryModel<C>,
    current: Seq<Defect<F>>,
    states: Seq<Seq<Defect<F>>>,
    k: nat,
) -> bool {
    exists|timeline: Seq<Seq<Defect<F>>>|
        consistent(h, current, timeline) && timeline.len() > k && timeline.take(k + 1int)
            == states.take(k + 1int)
}

/// Executing commands that each revert keeps the history consistent: the
/// undo stack grows by one entry per command, and the timeline keeps every
/// state up to the one the executions started from.
pub proof fn lemma_execute_all_keeps_consistent<F, C: Command<F>>(
    h: HistoryModel<C>,
    cmds: Seq<C>,
    current: Seq<Defect<F>>,
    states: Seq<Seq<Defect<F>>>,
)
    requires
        consistent(h, current, states),
        each_reverts(cmds, current),
    ensures
        ({
            let (h1, s1) = execute_all(h, cmds, current);
            &&& h1.0.len() == h.0.len() + cmds.len()
            &&& h1.0.take(h.0.len() as int) == h.0
            &&& continues_timeline(h1, s1, states, h.0.len())
        }),
    decreases cmds.len(),
{
    let k = h.0.len();
    if cmds.len() == 0 {
        assert(h.0.take(k as int) =~= h.0);
        assert(execute_all(h, cmds, current) == (h, current));
        assert(consistent(h, current, states) && states.len() > k && states.take(k + 1int)
            == states.take(k + 1int));
        assert(continues_timeline(h, current, states, k));
    } else {
        lemma_execute_keeps_consistent(h, cmds[0], current, states);
        let (h1, d1) = execute_step(h, cmds[0], current);
        let states1 = states.take(k + 1int).push(d1);
        lemma_execute_all_keeps_consistent(h1, cmds.drop_first(), d1, states1);
        let (h2, s2) = execute_all(h1, cmds.drop_first(), d1);
        assert(h1.0.take(k as int) =~= h.0);
        assert(h2.0.take(k as int) =~= h1.0.take(k as int)) by {
            assert(h2.0.take(h1.0.len() as int) == h1.0);
        }
        assert(continues_timeline(h2, s2, states1, h1.0.len()));
        let t = choose|timeline: Seq<Seq<Defect<F>>>|
            consistent(h2, s2, timeline) && timeline.len() > h1.0.len() && timeline.take(
                h1.0.len() + 1int,
            ) == states1.take(h1.0.len() + 1int);
        assert(t.take(k + 1int) =~= states.take(k + 1int)) by {
            assert forall|i: int| 0 <= i < k + 1 implies t[i] == states[i] by {
                assert(t.take(h1.0.len() + 1int)[i] == states1.take(h1.0.len() + 1int)[i]);
            }
        }
        assert(execute_all(h, cmds, current) == (h2, s2));
        assert(h2.0.len() == k + cmds.len());
        assert(h2.0.take(k as int) == h.0);
        assert(consistent(h2, s2, t) && t.len() > k && t.take(k + 1int) == states.take(
            k + 1int,
        ));
        assert(continues_timeline(h2, s2, states, k));
    }
}

/// `n + 1` undos are `n` undos followed by one more.
proof fn lemma_undo_times_last<F, C: Command<F>>(
    h: HistoryModel<C>,
    defects: Seq<Defect<F>>,
    n: nat,
)
    ensures
        undo_times(h, defects, n + 1) == ({
            let (h1, d1) = undo_times(h, defects, n);
            let (h2, d2, _) = undo_step(h1, d1);
            (h2, d2)
        }),
    decreases n,
{
    let (h1, d1, _) = undo_step(h, defects);
    assert(undo_times(h, defects, n + 1) == undo_times(h1, d1, n));
    if n > 0 {
        let m = (n - 1) as nat;
        lemma_undo_times_last(h1, d1, m);
        assert(m + 1 == n);
        assert(undo_times(h, defects, n) == undo_times(h1, d1, m));
    } else {
        assert(undo_times(h1, d1, 0) == (h1, d1));
    }
}

/// `n` executions of commands that each revert, followed by `n` undos, give
/// back the defect list and the undo stack as they were, whatever the
/// history held before (undo is last in, first out).
pub proof fn lemma_executes_then_undos_restore<F, C: Command<F>>(
    h: HistoryModel<C>,
    cmds: Seq<C>,
    current: Seq<Defect<F>>,
)
    requires
        each_reverts(cmds, current),
    ensures
        ({
            let (h1, s1) = execute_all(h, cmds, current);
            let (h2, s2) = undo_times(h1, s1, cmds.len());
            &&& s2 == current
            &&& h2.0 == h.0
        }),
    decreases cmds.len(),
{
    if cmds.len() > 0 {
        let rest = cmds.drop_first();
        let (done, after) = cmds[0].spec_execute(current);
        let (h1, d1) = execute_step(h, cmds[0], current);
        lemma_executes_then_undos_restore(h1, rest, d1);
        let (x, sx) = execute_all(h1, rest, d1);
        assert(execute_all(h, cmds, current) == (x, sx));
        lemma_undo_times_last(x, sx, rest.len());
        let (y, sy) = undo_times(x, sx, rest.len());
        assert(y.0 == h.0.push(done));
        assert(y.0.last() == done);
        assert(y.0.drop_last() =~= h.0);
        assert(rest.len() + 1 == cmds.len());
    }
}

/// Undoing and then redoing gives back the defect list and the whole
/// history, both stacks, as they were before the undo.
pub proof fn lemma_undo_then_redo_restores<F, C: Command<F>>(
    h: HistoryModel<C>,
    current: Seq<Defect<F>>,
    states: Seq<Seq<Defect<F>>>,
)
    requires
        consistent(h, current, states),
        h.0.len() > 0,
    ensures
        ({
            let (h1, s1, undone) = undo_step(h, current);
            let (h2, s2, redone) = redo_step(h1, s1);
            &&& undone && redone
            &&& s2 == current
            &&& h2 == h
        }),
{
    let k = h.0.len();
    assert(undoes_step(h.0[k - 1], states[k - 1], states[k as int]));
    let (h1, s1, undone) = undo_step(h, current);
    assert(h1.0.push(h.0[k - 1]) =~= h.0);
    assert(h1.1.drop_last() =~= h.1);
}

/// `n + 1` redos are `n` redos followed by one more.
proof fn lemma_redo_times_last<F, C: Command<F>>(
    h: HistoryModel<C>,
    defects: Seq<Defect<F>>,
    n: nat,
)
    ensures
        redo_times(h, defects, n + 1) == ({
            let (h1, d1) = redo_times(h, defects, n);
            let (h2, d2, _) = redo_step(h1, d1);
            (h2, d2)
        }),
    decreases n,
{
    let (h1, d1, _) = redo_step(h, defects);
    assert(redo_times(h, defects, n + 1) == redo_times(h1, d1, n));
    if n > 0 {
        let m = (n - 1) as nat;
        lemma_redo_times_last(h1, d1, m);
        assert(m + 1 == n);
        assert(redo_times(h, defects, n) == redo_times(h1, d1, m));
    } else {
        assert(redo_times(h1, d1, 0) == (h1, d1));
    }
}

/// `n` undos followed by `n` redos give back the defect list and the whole
/// history as they were.
pub proof fn lemma_undos_then_redos_restore<F, C: Command<F>>(
    h: HistoryModel<C>,
    current: Seq<Defect<F>>,
    states: Seq<Seq<Defect<F>>>,
    n: nat,
)
    requires
        consistent(h, current, states),
        n <= h.0.len(),
    ensures
        ({
            let (h1, s1) = undo_times(h, current, n);
            let (h2, s2) = redo_times(h1, s1, n);
            &&& s2 == current
            &&& h2 == h
        }),
    decreases n,
{
    if n > 0 {
        lemma_undo_keeps_consistent(h, current, states);
        let (u, su, _) = undo_step(h, current);
        lemma_undos_then_redos_restore(u, su, states, (n - 1) as nat);
        let (x, sx) = undo_times(u, su, (n - 1) as nat);
        lemma_redo_times_last(x, sx, (n - 1) as nat);
        lemma_undo_then_redo_restores(h, current, states);
    }
}

} // verus!
