//! The struct that the generator works on, and the sorting of its fields
//! into the flag storage, the tracked fields and the rest.

use crate::derive::field::FieldView;
use crate::derive::field::TrackedField;
use crate::derive::field::Visibility;
use crate::derive::field::VisibilityView;
use vstd::prelude::*;

verus! {

/// The generic parameters of the struct, in the three forms in which an
/// impl for it needs them.
#[derive(Debug)]
pub struct Generics {
    /// The parameters with their bounds, as they follow `impl`: `<T: Clone>`.
    pub params: String,
    /// The parameters as they follow the name of the struct: `<T>`.
    pub args: String,
    /// The `where` clause, or nothing.
    pub where_clause: String,
}

/// The model of [`Generics`].
pub struct GenericsView {
    pub params: Seq<char>,
    pub args: Seq<char>,
    pub where_clause: Seq<char>,
}

impl View for Generics {
    type V = GenericsView;

    open spec fn view(&self) -> GenericsView {
        GenericsView {
            params: self.params@,
            args: self.args@,
            where_clause: self.where_clause@,
        }
    }
}

/// What the annotated item holds: the fields of a struct, or, for an item
/// that is no struct, nothing that the generator reads.
#[derive(Debug)]
pub enum Data {
    Enum,
    Struct(Vec<TrackedField>),
}

/// The model of [`Data`].
pub enum DataView {
    Enum,
    Struct(Seq<FieldView>),
}

/// The models of `fields`, one for one.
pub open spec fn views(fields: Seq<TrackedField>) -> Seq<FieldView> {
    fields.map_values(|f: TrackedField| f@)
}

impl View for Data {
    type V = DataView;

    open spec fn view(&self) -> DataView {
        match self {
            Data::Enum => DataView::Enum,
            Data::Struct(fields) => DataView::Struct(views(fields@)),
        }
    }
}

/// The annotated item: its name, what it holds, its generics and its
/// visibility.
#[derive(Debug)]
pub struct TrackedInput {
    pub ident: String,
    pub data: Data,
    pub generics: Generics,
    pub vis: Visibility,
}

/// The model of a [`TrackedInput`].
pub struct InputView {
    pub ident: Seq<char>,
    pub data: DataView,
    pub generics: GenericsView,
    pub vis: VisibilityView,
}

impl View for TrackedInput {
    type V = InputView;

    open spec fn view(&self) -> InputView {
        InputView {
            ident: self.ident@,
            data: self.data@,
            generics: self.generics@,
            vis: self.vis@,
        }
    }
}

/// The positions below `n` at which `mask` holds, in rising order.
pub open spec fn set_positions(mask: Seq<bool>, n: int) -> Seq<int>
    decreases n,
{
    if n <= 0 {
        Seq::empty()
    } else if mask[n - 1] {
        set_positions(mask, n - 1).push(n - 1)
    } else {
        set_positions(mask, n - 1)
    }
}

/// The positions of the fields marked as flag storage, in declaration order.
pub open spec fn flag_positions(fields: Seq<FieldView>) -> Seq<int> {
    set_positions(fields.map_values(|f: FieldView| f.flag), fields.len() as int)
}

/// The positions of the tracked fields, in declaration order. The place of
/// a field in this sequence is the index of its bit.
pub open spec fn tracked_positions(fields: Seq<FieldView>) -> Seq<int> {
    set_positions(fields.map_values(|f: FieldView| f.is_tracked()), fields.len() as int)
}

/// The positions of the tracked fields that have no name, in declaration
/// order.
pub open spec fn unnamed_positions(fields: Seq<FieldView>) -> Seq<int> {
    set_positions(
        fields.map_values(|f: FieldView| f.is_tracked() && f.ident is None),
        fields.len() as int,
    )
}

/// `set_positions` lists exactly the positions below `n` at which the mask
/// holds, each once and in rising order.
pub proof fn lemma_set_positions(mask: Seq<bool>, n: int)
    requires
        0 <= n <= mask.len(),
    ensures
        set_positions(mask, n).len() <= n,
        forall|k: int|
            0 <= k < set_positions(mask, n).len() ==> 0 <= #[trigger] set_positions(mask, n)[k] < n
                && mask[set_positions(mask, n)[k]],
        forall|j: int, k: int|
            0 <= j < k < set_positions(mask, n).len() ==> #[trigger] set_positions(mask, n)[j]
                < #[trigger] set_positions(mask, n)[k],
        forall|i: int| 0 <= i < n && mask[i] ==> set_positions(mask, n).contains(i),
    decreases n,
{
    if n > 0 {
        lemma_set_positions(mask, n - 1);
        let before = set_positions(mask, n - 1);
        let now = set_positions(mask, n);
        if mask[n - 1] {
            assert(now[before.len() as int] == n - 1);
            assert forall|i: int| 0 <= i < n && mask[i] implies now.contains(i) by {
                if i < n - 1 {
                    let k = choose|k: int| 0 <= k < before.len() && before[k] == i;
                    assert(now[k] == i);
                }
            }
        }
    }
}

/// What `lemma_set_positions` says of the list determines it: a rising list
/// of positions below `n` at which the mask holds, which misses none of
/// them, is the list of `set_positions`.
pub proof fn lemma_set_positions_determined(mask: Seq<bool>, n: int, list: Seq<int>)
    requires
        0 <= n <= mask.len(),
        forall|k: int| 0 <= k < list.len() ==> 0 <= #[trigger] list[k] < n && mask[list[k]],
        forall|j: int, k: int| 0 <= j < k < list.len() ==> #[trigger] list[j] < #[trigger] list[k],
        forall|i: int| 0 <= i < n && mask[i] ==> list.contains(i),
    ensures
        set_positions(mask, n) == list,
    decreases n,
{
    if n == 0 {
        assert(list.len() == 0) by {
            if list.len() > 0 {
                assert(0 <= list[0] < n);
            }
        }
        assert(set_positions(mask, n) =~= list);
    } else if mask[n - 1] {
        assert(list.contains(n - 1));
        let k = choose|k: int| 0 <= k < list.len() && list[k] == n - 1;
        assert(k == list.len() - 1) by {
            if k < list.len() - 1 {
                assert(list[k] < list[k + 1]);
            }
        }
        let rest = list.drop_last();
        assert forall|i: int| 0 <= i < n - 1 && mask[i] implies rest.contains(i) by {
            let at = choose|at: int| 0 <= at < list.len() && list[at] == i;
            assert(rest[at] == i);
        }
        assert forall|j: int| 0 <= j < rest.len() implies 0 <= #[trigger] rest[j] < n - 1
            && mask[rest[j]] by {
            assert(list[j] < list[k]);
        }
        lemma_set_positions_determined(mask, n - 1, rest);
        assert(set_positions(mask, n) =~= list);
    } else {
        assert forall|j: int| 0 <= j < list.len() implies 0 <= #[trigger] list[j] < n - 1
            && mask[list[j]] by {
            assert(mask[list[j]]);
        }
        lemma_set_positions_determined(mask, n - 1, list);
    }
}

/// The tracked fields are exactly the fields that are neither the flag
/// storage nor skipped: each of them has one place among the tracked fields,
/// the places follow the declaration order, and no other field has a place.
pub proof fn lemma_tracked_positions(fields: Seq<FieldView>)
    ensures
        tracked_positions(fields).len() <= fields.len(),
        forall|k: int|
            0 <= k < tracked_positions(fields).len() ==> {
                &&& 0 <= #[trigger] tracked_positions(fields)[k] < fields.len()
                &&& fields[tracked_positions(fields)[k]].is_tracked()
            },
        forall|j: int, k: int|
            0 <= j < k < tracked_positions(fields).len() ==> #[trigger] tracked_positions(fields)[j]
                < #[trigger] tracked_positions(fields)[k],
        forall|i: int|
            0 <= i < fields.len() ==> (fields[i].is_tracked() <==> tracked_positions(
                fields,
            ).contains(i)),
{
    let mask = fields.map_values(|f: FieldView| f.is_tracked());
    lemma_set_positions(mask, fields.len() as int);
    assert forall|i: int| 0 <= i < fields.len() implies (fields[i].is_tracked()
        <==> tracked_positions(fields).contains(i)) by {
        assert(mask[i] == fields[i].is_tracked());
    }
}

/// The fields marked as flag storage are listed completely, each once and
/// in declaration order.
pub proof fn lemma_flag_positions(fields: Seq<FieldView>)
    ensures
        flag_positions(fields).len() <= fields.len(),
        forall|k: int|
            0 <= k < flag_positions(fields).len() ==> {
                &&& 0 <= #[trigger] flag_positions(fields)[k] < fields.len()
                &&& fields[flag_positions(fields)[k]].flag
            },
        forall|j: int, k: int|
            0 <= j < k < flag_positions(fields).len() ==> #[trigger] flag_positions(fields)[j]
                < #[trigger] flag_positions(fields)[k],
        forall|i: int|
            0 <= i < fields.len() ==> (fields[i].flag <==> flag_positions(fields).contains(i)),
{
    let mask = fields.map_values(|f: FieldView| f.flag);
    lemma_set_positions(mask, fields.len() as int);
    assert forall|i: int| 0 <= i < fields.len() implies (fields[i].flag <==> flag_positions(
        fields,
    ).contains(i)) by {
        assert(mask[i] == fields[i].flag);
    }
}

/// The tracked fields without a name are listed completely and in
/// declaration order: the list is empty exactly where every tracked field
/// has a name, and otherwise starts with the first that has none.
pub proof fn lemma_unnamed_positions(fields: Seq<FieldView>)
    ensures
        unnamed_positions(fields).len() == 0 <==> forall|i: int|
            0 <= i < fields.len() && (#[trigger] fields[i]).is_tracked()
                ==> fields[i].ident is Some,
        unnamed_positions(fields).len() > 0 ==> {
            let first = unnamed_positions(fields)[0];
            &&& 0 <= first < fields.len()
            &&& fields[first].is_tracked()
            &&& fields[first].ident is None
            &&& forall|i: int|
                0 <= i < first && (#[trigger] fields[i]).is_tracked() ==> fields[i].ident is Some
        },
{
    let mask = fields.map_values(|f: FieldView| f.is_tracked() && f.ident is None);
    let found = unnamed_positions(fields);
    lemma_set_positions(mask, fields.len() as int);
    assert forall|i: int|
        0 <= i < fields.len() && (#[trigger] fields[i]).is_tracked()
            && fields[i].ident is None implies {
        &&& found.len() > 0
        &&& found[0] <= i
    } by {
        assert(mask[i]);
        let k = choose|k: int| 0 <= k < found.len() && found[k] == i;
        assert(k > 0 ==> found[0] < found[k]);
    }
}

impl InputView {
    /// The fields of the struct; none for an item that is no struct.
    pub open spec fn fields(self) -> Seq<FieldView> {
        match self.data {
            DataView::Struct(fields) => fields,
            DataView::Enum => Seq::empty(),
        }
    }
}

/// The positions as mathematical integers.
pub open spec fn as_ints(positions: Seq<usize>) -> Seq<int> {
    positions.map_values(|p: usize| p as int)
}

/// The positions of the fields marked as flag storage, in declaration order.
pub fn flag_fields(fields: &Vec<TrackedField>) -> (r: Vec<usize>)
    ensures
        as_ints(r@) == flag_positions(views(fields@)),
{
    let ghost mask = views(fields@).map_values(|f: FieldView| f.flag);
    let mut found: Vec<usize> = Vec::new();
    let mut i: usize = 0;
    while i < fields.len()
        invariant
            i <= fields.len(),
            mask == views(fields@).map_values(|f: FieldView| f.flag),
            as_ints(found@) == set_positions(mask, i as int),
        decreases fields.len() - i,
    {
        if fields[i].flag {
            found.push(i);
        }
        i += 1;
    }
    found
}

/// The positions of the tracked fields, in declaration order.
pub fn tracked_fields(fields: &Vec<TrackedField>) -> (r: Vec<usize>)
    ensures
        as_ints(r@) == tracked_positions(views(fields@)),
{
    let ghost mask = views(fields@).map_values(|f: FieldView| f.is_tracked());
    let mut found: Vec<usize> = Vec::new();
    let mut i: usize = 0;
    while i < fields.len()
        invariant
            i <= fields.len(),
            mask == views(fields@).map_values(|f: FieldView| f.is_tracked()),
            as_ints(found@) == set_positions(mask, i as int),
        decreases fields.len() - i,
    {
        if fields[i].is_tracked() {
            found.push(i);
        }
        i += 1;
    }
    found
}

/// The positions of the tracked fields that have no name, in declaration
/// order.
pub fn unnamed_fields(fields: &Vec<TrackedField>) -> (r: Vec<usize>)
    ensures
        as_ints(r@) == unnamed_positions(views(fields@)),
{
    let ghost mask = views(fields@).map_values(|f: FieldView| f.is_tracked() && f.ident is None);
    let mut found: Vec<usize> = Vec::new();
    let mut i: usize = 0;
    while i < fields.len()
        invariant
            i <= fields.len(),
            mask == views(fields@).map_values(|f: FieldView| f.is_tracked() && f.ident is None),
            as_ints(found@) == set_positions(mask, i as int),
        decreases fields.len() - i,
    {
        if fields[i].is_tracked() && fields[i].ident.is_none() {
            found.push(i);
        }
        i += 1;
    }
    found
}

} // verus!
