//! The tree of views, and what happens when a view is given its place.
//!
//! The views on screen form a tree. It is handed over as a list of rows, one
//! for each view that has a parent: the parent, the view's own entity and the
//! view. The order of the rows is the order in which the children of one
//! parent are found.

use std::sync::Arc;
use vstd::prelude::*;

verus! {

/// The number by which a thing on screen is known.
#[derive(Copy, Clone, Debug, PartialEq, Eq, Structural)]
pub struct Entity(pub u64);

/// One view that has a parent.
#[derive(Debug)]
pub struct ViewRow<T> {
    pub parent: Entity,
    pub entity: Entity,
    pub view: Arc<T>,
}

/// A view with its entity.
#[derive(Debug)]
pub struct ViewEntity<T> {
    pub entity: Entity,
    pub view: Arc<T>,
}

/// Why a view could not be handed out.
#[derive(Copy, Clone, Debug, PartialEq, Eq, Structural)]
pub enum LayoutError {
    /// The entity has no child among the views that were asked for.
    ViewNotFound,
}

/// The view of `row` with its entity.
pub open spec fn row_view<T>(row: ViewRow<T>) -> ViewEntity<T> {
    ViewEntity { entity: row.entity, view: row.view }
}

/// The children of `entity` among `rows`, in the order of the rows.
pub open spec fn children_of<T>(rows: Seq<ViewRow<T>>, entity: Entity) -> Seq<ViewEntity<T>>
    decreases rows.len(),
{
    if rows.len() == 0 {
        Seq::empty()
    } else {
        let before = children_of(rows.drop_last(), entity);
        if rows.last().parent == entity {
            before.push(row_view(rows.last()))
        } else {
            before
        }
    }
}

/// An entity without a row of its own has no children.
pub proof fn lemma_no_children<T>(rows: Seq<ViewRow<T>>, entity: Entity)
    requires
        forall|j: int| 0 <= j < rows.len() ==> (#[trigger] rows[j]).parent != entity,
    ensures
        children_of(rows, entity).len() == 0,
    decreases rows.len(),
{
    if rows.len() > 0 {
        let front = rows.drop_last();
        assert(forall|j: int| 0 <= j < front.len() ==> front[j] == rows[j]);
        lemma_no_children(front, entity);
    }
}

/// The first child of an entity is the view of the first row that names the
/// entity as parent.
pub proof fn lemma_first_child<T>(rows: Seq<ViewRow<T>>, entity: Entity, k: int)
    requires
        0 <= k < rows.len(),
        rows[k].parent == entity,
        forall|j: int| 0 <= j < k ==> (#[trigger] rows[j]).parent != entity,
    ensures
        children_of(rows, entity).len() > 0,
        children_of(rows, entity)[0] == row_view(rows[k]),
    decreases rows.len(),
{
    let front = rows.drop_last();
    assert(forall|j: int| 0 <= j < front.len() ==> front[j] == rows[j]);
    if k == rows.len() - 1 {
        lemma_no_children(front, entity);
    } else {
        lemma_first_child(front, entity, k);
    }
}

/// Row `k` of `rows` names `entity` as parent and holds the view `child`.
pub open spec fn row_gives<T>(
    rows: Seq<ViewRow<T>>,
    entity: Entity,
    k: int,
    child: ViewEntity<T>,
) -> bool {
    0 <= k < rows.len() && rows[k].parent == entity && row_view(rows[k]) == child
}

/// Every child of an entity is the view of a row that names the entity as
/// parent.
pub proof fn lemma_children_come_from_rows<T>(rows: Seq<ViewRow<T>>, entity: Entity, i: int)
    requires
        0 <= i < children_of(rows, entity).len(),
    ensures
        exists|k: int| row_gives(rows, entity, k, children_of(rows, entity)[i]),
    decreases rows.len(),
{
    let front = rows.drop_last();
    let last = rows.len() - 1;
    let before = children_of(front, entity);
    if i < before.len() {
        lemma_children_come_from_rows(front, entity, i);
        let k = choose|k: int| row_gives(front, entity, k, before[i]);
        assert(front[k] == rows[k]);
        assert(row_gives(rows, entity, k, children_of(rows, entity)[i]));
    } else {
        assert(row_gives(rows, entity, last, children_of(rows, entity)[i]));
    }
}

/// Every row that names an entity as parent gives one of its children.
pub proof fn lemma_rows_give_children<T>(rows: Seq<ViewRow<T>>, entity: Entity, k: int)
    requires
        0 <= k < rows.len(),
        rows[k].parent == entity,
    ensures
        children_of(rows, entity).contains(row_view(rows[k])),
    decreases rows.len(),
{
    let front = rows.drop_last();
    let last = rows.len() - 1;
    let before = children_of(front, entity);
    let all = children_of(rows, entity);
    if k < last {
        assert(front[k] == rows[k]);
        lemma_rows_give_children(front, entity, k);
        let i = choose|i: int| 0 <= i < before.len() && before[i] == row_view(front[k]);
        assert(all[i] == row_view(rows[k]));
    } else {
        assert(all[all.len() - 1] == row_view(rows[k]));
    }
}

/// Hands out another handle to the view behind `view`. `Arc::clone` gives a
/// pointer to the same allocation and leaves the value untouched, so the
/// result is taken to be equal to `view`.
#[verifier::external_body]
fn share<T>(view: &Arc<T>) -> (r: Arc<T>)
    ensures
        r == *view,
{
    Arc::clone(view)
}

/// The first child of `entity`, or the error that it has none.
pub fn query_child<T>(rows: &Vec<ViewRow<T>>, entity: Entity) -> (r: Result<
    ViewEntity<T>,
    LayoutError,
>)
    ensures
        match r {
            Ok(child) => children_of(rows@, entity).len() > 0 && child == children_of(
                rows@,
                entity,
            )[0],
            Err(e) => children_of(rows@, entity).len() == 0 && e == LayoutError::ViewNotFound,
        },
{
    let n = rows.len();
    let mut i: usize = 0;
    while i < n
        invariant
            i <= n,
            n == rows@.len(),
            forall|j: int| 0 <= j < i ==> (#[trigger] rows@[j]).parent != entity,
        decreases n - i,
    {
        if rows[i].parent == entity {
            proof {
                lemma_first_child(rows@, entity, i as int);
            }
            return Ok(ViewEntity { entity: rows[i].entity, view: share(&rows[i].view) });
        }
        i += 1;
    }
    proof {
        lemma_no_children(rows@, entity);
    }
    Err(LayoutError::ViewNotFound)
}

/// The first child of `entity`, if it has one.
pub fn get_child<T>(rows: &Vec<ViewRow<T>>, entity: Entity) -> (r: Option<ViewEntity<T>>)
    ensures
        match r {
            Some(child) => children_of(rows@, entity).len() > 0 && child == children_of(
                rows@,
                entity,
            )[0],
            None => children_of(rows@, entity).len() == 0,
        },
{
    match query_child(rows, entity) {
        Ok(child) => Some(child),
        Err(_) => None,
    }
}

/// The children of `entity`, in the order of the rows.
pub fn get_children<T>(rows: &Vec<ViewRow<T>>, entity: Entity) -> (children: Vec<ViewEntity<T>>)
    ensures
        children@ == children_of(rows@, entity),
{
    let mut children: Vec<ViewEntity<T>> = Vec::new();
    let n = rows.len();
    let mut i: usize = 0;
    assert(rows@.take(0) =~= Seq::<ViewRow<T>>::empty());
    while i < n
        invariant
            i <= n,
            n == rows@.len(),
            children@ == children_of(rows@.take(i as int), entity),
        decreases n - i,
    {
        proof {
            let upto = rows@.take(i as int + 1);
            assert(upto.drop_last() =~= rows@.take(i as int));
            assert(upto.last() == rows@[i as int]);
        }
        if rows[i].parent == entity {
            children.push(ViewEntity { entity: rows[i].entity, view: share(&rows[i].view) });
        }
        i += 1;
    }
    assert(rows@.take(n as int) =~= rows@);
    children
}

/// What a view says of itself.
#[derive(Copy, Clone, Debug, PartialEq, Eq, Structural)]
pub struct ViewTraits {
    /// The view is the root of the tree.
    pub is_root: bool,
    /// The view wants a line written when it is given its place.
    pub log_set_layout: bool,
    /// The view wants a line written when its place has changed.
    pub log_layout_changed: bool,
}

/// The point of a view by which it is placed.
#[derive(Copy, Clone, Debug, PartialEq, Eq, Structural)]
pub enum Pivot {
    /// The point by which the root is placed.
    Root,
    /// The point by which every other view is placed.
    Usual,
}

/// The line that is written when a view is given its place.
#[derive(Copy, Clone, Debug, PartialEq, Eq, Structural)]
pub enum LayoutLog {
    /// None.
    Silent,
    /// The place as it was given and as it was moved to the view's pivot.
    Adjusted,
    /// The place.
    Plain,
}

/// What is done with a place that a view is given.
#[derive(Copy, Clone, Debug, PartialEq, Eq, Structural)]
pub enum SetLayout {
    /// Nothing: the root is not placed by anyone.
    RootRefused,
    /// The place is written to the view, after it was moved to the view's
    /// pivot if `adjust` says so.
    Write { adjust: bool, log: LayoutLog },
}

/// What is done when the place of a view has changed.
#[derive(Copy, Clone, Debug, PartialEq, Eq, Structural)]
pub enum LayoutChanged {
    /// Nothing: the view has no size yet.
    Ignore,
    /// The view is told to lay out what is inside it.
    Notify { log: bool },
}

impl Default for ViewTraits {
    /// A view is no root and writes no lines unless it says otherwise.
    fn default() -> (r: Self)
        ensures
            !r.is_root,
            !r.log_set_layout,
            !r.log_layout_changed,
    {
        ViewTraits { is_root: false, log_set_layout: false, log_layout_changed: false }
    }
}

impl ViewTraits {
    /// What is done with a place that the view is given.
    pub open spec fn placed(self, pivot_differs: bool) -> SetLayout {
        if self.is_root {
            SetLayout::RootRefused
        } else {
            SetLayout::Write {
                adjust: pivot_differs,
                log: if !self.log_set_layout {
                    LayoutLog::Silent
                } else if pivot_differs {
                    LayoutLog::Adjusted
                } else {
                    LayoutLog::Plain
                },
            }
        }
    }

    /// The point by which the view is placed.
    pub fn pivot(&self) -> (r: Pivot)
        ensures
            r == if self.is_root {
                Pivot::Root
            } else {
                Pivot::Usual
            },
    {
        if self.is_root {
            Pivot::Root
        } else {
            Pivot::Usual
        }
    }

    /// Says what is done with a place that the view is given. The root
    /// refuses it. For any other view the place is moved to the view's pivot
    /// where it was given by another one (`pivot_differs`), and written.
    pub fn set_layout_data(&self, pivot_differs: bool) -> (r: SetLayout)
        ensures
            r == self.placed(pivot_differs),
    {
        if self.is_root {
            return SetLayout::RootRefused;
        }
        let need_adjust = pivot_differs;
        let log = if self.log_set_layout {
            if need_adjust {
                LayoutLog::Adjusted
            } else {
                LayoutLog::Plain
            }
        } else {
            LayoutLog::Silent
        };
        SetLayout::Write { adjust: need_adjust, log }
    }

    /// Says what is done when the place of the view has changed: the view is
    /// told so once it has a width and a height.
    pub fn on_layout_changed(&self, width_positive: bool, height_positive: bool) -> (r:
        LayoutChanged)
        ensures
            r == if width_positive && height_positive {
                LayoutChanged::Notify { log: self.log_layout_changed }
            } else {
                LayoutChanged::Ignore
            },
    {
        if width_positive && height_positive {
            LayoutChanged::Notify { log: self.log_layout_changed }
        } else {
            LayoutChanged::Ignore
        }
    }
}

} // verus!
