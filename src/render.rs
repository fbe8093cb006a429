//! What the overlay shows: the commands that set it up and rebuild its two data
//! columns, and a model of the columns that those commands produce.
use crate::config::EasyVecUi;
use crate::timer::{carried, fires, EasyVecUiUpdateTimer};
use vstd::prelude::*;

verus! {

/// One of the two data columns.
#[derive(Clone, Copy, PartialEq, Eq, Debug, Structural)]
pub enum Side {
    Left,
    Right,
}

/// A command for the presentation backend on one data column.
pub enum UiCommand {
    /// Remove every row of the column.
    ClearChildren(Side),
    /// Append a text row, in the data style, below the column's last row.
    AppendTextRow(Side, String),
}

/// A command that sets the overlay up, run once before any update.
pub enum SetupCommand {
    /// Load the font at this path and derive the title and data styles from it.
    LoadFont(String),
    /// Create the overlay's camera with this order.
    SpawnCamera(isize),
    /// Create the title banner with this text.
    SpawnTitle(String),
    /// Create the (empty) container of one data column.
    SpawnContainer(Side),
}

/// The commands that rebuild one column from `items`: clear it, then one row per
/// item, in list order.
pub open spec fn rebuild_plan(side: Side, items: Seq<String>) -> Seq<UiCommand> {
    seq![UiCommand::ClearChildren(side)] + items.map_values(
        |s: String| UiCommand::AppendTextRow(side, s),
    )
}

/// The commands of one due firing: the left column, then the right one.
pub open spec fn update_plan(left: Seq<String>, right: Seq<String>) -> Seq<UiCommand> {
    rebuild_plan(Side::Left, left) + rebuild_plan(Side::Right, right)
}

/// The rows shown in each column: (left, right).
pub type Columns = (Seq<String>, Seq<String>);

/// The rows of one column.
pub open spec fn rows_of(c: Columns, side: Side) -> Seq<String> {
    match side {
        Side::Left => c.0,
        Side::Right => c.1,
    }
}

/// Columns with the rows of `side` replaced by `rows`.
pub open spec fn with_rows(c: Columns, side: Side, rows: Seq<String>) -> Columns {
    match side {
        Side::Left => (rows, c.1),
        Side::Right => (c.0, rows),
    }
}

/// The columns after one command.
pub open spec fn apply_command(c: Columns, cmd: UiCommand) -> Columns {
    match cmd {
        UiCommand::ClearChildren(side) => with_rows(c, side, Seq::empty()),
        UiCommand::AppendTextRow(side, s) => with_rows(c, side, rows_of(c, side).push(s)),
    }
}

/// The columns after a sequence of commands, run in order.
pub open spec fn apply_all(c: Columns, cmds: Seq<UiCommand>) -> Columns
    decreases cmds.len(),
{
    if cmds.len() == 0 {
        c
    } else {
        apply_command(apply_all(c, cmds.drop_last()), cmds.last())
    }
}

/// Running `a` then `b` is running `a + b`.
pub proof fn lemma_apply_all_concat(c: Columns, a: Seq<UiCommand>, b: Seq<UiCommand>)
    ensures
        apply_all(c, a + b) == apply_all(apply_all(c, a), b),
    decreases b.len(),
{
    if b.len() == 0 {
        assert(a + b =~= a);
    } else {
        assert((a + b).drop_last() =~= a + b.drop_last());
        lemma_apply_all_concat(c, a, b.drop_last());
    }
}

/// Rebuilding a column from `items` leaves exactly `items` in it, in list
/// order, whatever it held before, and leaves the other column as it was.
pub proof fn lemma_rebuild_shows_items(c: Columns, side: Side, items: Seq<String>)
    ensures
        apply_all(c, rebuild_plan(side, items)) == with_rows(c, side, items),
    decreases items.len(),
{
    let plan = rebuild_plan(side, items);
    if items.len() == 0 {
        assert(plan.drop_last() =~= Seq::<UiCommand>::empty());
        assert(items =~= Seq::<String>::empty());
        assert(apply_all(c, plan.drop_last()) == c);
        assert(apply_all(c, plan) == apply_command(c, plan.last()));
    } else {
        let prefix = items.drop_last();
        assert(plan.drop_last() =~= rebuild_plan(side, prefix));
        lemma_rebuild_shows_items(c, side, prefix);
        assert(prefix.push(items.last()) =~= items);
        assert(apply_all(c, plan) == apply_command(with_rows(c, side, prefix), plan.last()));
    }
}

/// Rebuilding a column twice in a row from the same items gives the same
/// columns as rebuilding it once: the column shows exactly the items.
pub proof fn lemma_rebuild_twice(c: Columns, side: Side, items: Seq<String>)
    ensures
        apply_all(apply_all(c, rebuild_plan(side, items)), rebuild_plan(side, items)) == apply_all(
            c,
            rebuild_plan(side, items),
        ),
        rows_of(
            apply_all(apply_all(c, rebuild_plan(side, items)), rebuild_plan(side, items)),
            side,
        ) == items,
{
    lemma_rebuild_shows_items(c, side, items);
    lemma_rebuild_shows_items(with_rows(c, side, items), side, items);
}

/// After the commands of one firing, the columns show exactly the two lists,
/// whatever they showed before.
pub proof fn lemma_update_shows_lists(c: Columns, left: Seq<String>, right: Seq<String>)
    ensures
        apply_all(c, update_plan(left, right)) == (left, right),
{
    lemma_apply_all_concat(c, rebuild_plan(Side::Left, left), rebuild_plan(Side::Right, right));
    lemma_rebuild_shows_items(c, Side::Left, left);
    lemma_rebuild_shows_items(with_rows(c, Side::Left, left), Side::Right, right);
}

/// The commands that rebuild one column from `items`.
pub fn rebuild_commands(side: Side, items: &Vec<String>) -> (r: Vec<UiCommand>)
    ensures
        r@ == rebuild_plan(side, items@),
{
    let mut r: Vec<UiCommand> = Vec::new();
    r.push(UiCommand::ClearChildren(side));
    let mut i: usize = 0;
    while i < items.len()
        invariant
            i <= items@.len(),
            r@ == rebuild_plan(side, items@.take(i as int)),
        decreases items@.len() - i,
    {
        r.push(UiCommand::AppendTextRow(side, items[i].clone()));
        proof {
            assert(items@.take(i as int + 1) =~= items@.take(i as int).push(items@[i as int]));
        }
        i = i + 1;
        assert(r@ =~= rebuild_plan(side, items@.take(i as int)));
    }
    assert(items@.take(i as int) =~= items@);
    r
}

/// The commands of one due firing: clear and refill the left column from the
/// left list, then the right column from the right list.
pub fn update_ui(user_supplied: &EasyVecUi) -> (r: Vec<UiCommand>)
    ensures
        r@ == update_plan(user_supplied.data_vec_left@, user_supplied.data_vec_right@),
{
    let mut r = rebuild_commands(Side::Left, &user_supplied.data_vec_left);
    let mut right = rebuild_commands(Side::Right, &user_supplied.data_vec_right);
    r.append(&mut right);
    r
}

/// One frame: advances the timer by the frame's `delta_nanos`; when it fires,
/// returns the commands that rebuild both columns, else none.
pub fn ui_update_system(
    timer: &mut EasyVecUiUpdateTimer,
    delta_nanos: u64,
    user_supplied: &EasyVecUi,
) -> (r: Vec<UiCommand>)
    requires
        old(timer).wf(),
    ensures
        final(timer).wf(),
        final(timer).interval_nanos == old(timer).interval_nanos,
        final(timer).elapsed_nanos == carried(
            old(timer).interval_nanos as nat,
            old(timer).elapsed_nanos as nat,
            delta_nanos as nat,
        ),
        r@ == if fires(
            old(timer).interval_nanos as nat,
            old(timer).elapsed_nanos as nat,
            delta_nanos as nat,
        ) {
            update_plan(user_supplied.data_vec_left@, user_supplied.data_vec_right@)
        } else {
            Seq::empty()
        },
{
    if timer.tick(delta_nanos) {
        update_ui(user_supplied)
    } else {
        Vec::new()
    }
}

/// The commands that set the overlay up: load the font, create the camera at
/// the configured layer, the title banner, then the left and right containers.
pub fn setup_ui(user_supplied: &EasyVecUi) -> (r: Vec<SetupCommand>)
    ensures
        r@ == seq![
            SetupCommand::LoadFont(user_supplied.font_path),
            SetupCommand::SpawnCamera(user_supplied.camera_layer),
            SetupCommand::SpawnTitle(user_supplied.title),
            SetupCommand::SpawnContainer(Side::Left),
            SetupCommand::SpawnContainer(Side::Right),
        ],
{
    let mut r: Vec<SetupCommand> = Vec::new();
    r.push(SetupCommand::LoadFont(user_supplied.font_path.clone()));
    r.push(SetupCommand::SpawnCamera(user_supplied.camera_layer));
    r.push(SetupCommand::SpawnTitle(user_supplied.title.clone()));
    r.push(SetupCommand::SpawnContainer(Side::Left));
    r.push(SetupCommand::SpawnContainer(Side::Right));
    assert(r@ =~= seq![
        SetupCommand::LoadFont(user_supplied.font_path),
        SetupCommand::SpawnCamera(user_supplied.camera_layer),
        SetupCommand::SpawnTitle(user_supplied.title),
        SetupCommand::SpawnContainer(Side::Left),
        SetupCommand::SpawnContainer(Side::Right),
    ]);
    r
}

/// A model of the two data columns as rendered rows.
pub struct RenderedColumns {
    pub left: Vec<String>,
    pub right: Vec<String>,
}

impl View for RenderedColumns {
    type V = Columns;

    open spec fn view(&self) -> Columns {
        (self.left@, self.right@)
    }
}

impl RenderedColumns {
    /// Two empty columns, as setup leaves them.
    pub fn new() -> (r: Self)
        ensures
            r@ == (Seq::<String>::empty(), Seq::<String>::empty()),
    {
        RenderedColumns { left: Vec::new(), right: Vec::new() }
    }

    /// The rows of one column, top first.
    pub fn rows(&self, side: Side) -> (r: &Vec<String>)
        ensures
            r@ == rows_of(self@, side),
    {
        match side {
            Side::Left => &self.left,
            Side::Right => &self.right,
        }
    }

    /// Runs one command.
    pub fn apply(&mut self, cmd: UiCommand)
        ensures
            final(self)@ == apply_command(old(self)@, cmd),
    {
        match cmd {
            UiCommand::ClearChildren(Side::Left) => {
                self.left = Vec::new();
            },
            UiCommand::ClearChildren(Side::Right) => {
                self.right = Vec::new();
            },
            UiCommand::AppendTextRow(Side::Left, s) => {
                self.left.push(s);
            },
            UiCommand::AppendTextRow(Side::Right, s) => {
                self.right.push(s);
            },
        }
        assert(self@ =~= apply_command(old(self)@, cmd));
    }

    /// Runs the commands in order.
    pub fn apply_all(&mut self, cmds: Vec<UiCommand>)
        ensures
            final(self)@ == apply_all(old(self)@, cmds@),
    {
        let ghost start = self@;
        let ghost all = cmds@;
        let mut rest = cmds;
        let mut done: usize = 0;
        let n: usize = rest.len();
        while rest.len() > 0
            invariant
                n == all.len(),
                done <= all.len(),
                rest@ == all.subrange(done as int, all.len() as int),
                self@ == apply_all(start, all.take(done as int)),
            decreases rest@.len(),
        {
            let cmd = rest.remove(0);
            proof {
                assert(all.take(done as int + 1).drop_last() =~= all.take(done as int));
                assert(rest@ =~= all.subrange(done as int + 1, all.len() as int));
            }
            self.apply(cmd);
            done = done + 1;
        }
        assert(all.take(done as int) =~= all);
    }

    /// Clears one column and refills it with one row per item, in list order.
    pub fn rebuild(&mut self, side: Side, items: &Vec<String>)
        ensures
            final(self)@ == with_rows(old(self)@, side, items@),
            rows_of(final(self)@, side) == items@,
    {
        let cmds = rebuild_commands(side, items);
        proof {
            lemma_rebuild_shows_items(self@, side, items@);
        }
        self.apply_all(cmds);
    }

    /// Runs the commands of one firing for `user_supplied`.
    pub fn update(&mut self, user_supplied: &EasyVecUi)
        ensures
            final(self).left@ == user_supplied.data_vec_left@,
            final(self).right@ == user_supplied.data_vec_right@,
    {
        let cmds = update_ui(user_supplied);
        proof {
            lemma_update_shows_lists(self@, user_supplied.data_vec_left@, user_supplied.data_vec_right@);
        }
        self.apply_all(cmds);
    }
}

} // verus!
