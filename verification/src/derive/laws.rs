//! What holds of the generator for every input.

use crate::derive::error::AnchorView;
use crate::derive::error::ErrorView;
use crate::derive::error::too_many_message;
use crate::derive::expand::Expansion;
use crate::derive::field::VisibilityView;
use crate::derive::input::flag_positions;
use crate::derive::input::lemma_flag_positions;
use crate::derive::input::lemma_tracked_positions;
use crate::derive::input::lemma_unnamed_positions;
use crate::derive::input::tracked_positions;
use crate::derive::input::InputView;
use crate::derive::text::strip_raw;
use crate::derive::width::is_smallest_cover;
use crate::derive::width::lemma_width_for;
use crate::derive::width::MAX_TRACKED;
use vstd::prelude::*;

verus! {

/// For a struct with exactly one field marked as flag storage and no more
/// tracked fields than [`MAX_TRACKED`], all of them named, code is
/// generated. Its flags type has the narrowest storage with a bit for each
/// tracked field, and one constant for each, whose bit is the place of the
/// field among the tracked fields.
pub proof fn lemma_generation_succeeds(input: InputView)
    requires
        input.data is Struct,
        flag_positions(input.fields()).len() == 1,
        tracked_positions(input.fields()).len() <= MAX_TRACKED,
        input.fields()[flag_positions(input.fields())[0]].ident is Some,
        forall|i: int|
            0 <= i < input.fields().len() && (#[trigger] input.fields()[i]).is_tracked()
                ==> input.fields()[i].ident is Some,
    ensures
        input.outcome() is Ok,
        input.outcome() == Ok::<Expansion, ErrorView>(input.expansion()),
        is_smallest_cover(input.expansion().bits, tracked_positions(input.fields()).len()),
        input.expansion().flags.len() == tracked_positions(input.fields()).len(),
        forall|k: int|
            0 <= k < input.expansion().flags.len() ==> {
                &&& (#[trigger] input.expansion().flags[k]).index == k
                &&& input.expansion().flags[k].index < input.expansion().bits.width()
                &&& input.expansion().flags[k].name
                    == input.fields()[tracked_positions(input.fields())[k]].ident.unwrap()
            },
{
    lemma_width_for(tracked_positions(input.fields()).len());
    lemma_unnamed_positions(input.fields());
}

/// For a struct with one field marked as flag storage and more tracked
/// fields than [`MAX_TRACKED`], no code is generated, and the error names
/// the number of tracked fields; its one message holds that number and the
/// maximum.
pub proof fn lemma_too_many_refused(input: InputView)
    requires
        input.data is Struct,
        flag_positions(input.fields()).len() == 1,
        tracked_positions(input.fields()).len() > MAX_TRACKED,
    ensures
        input.outcome() matches Err(ErrorView::TooManyTracked { count, .. }) && count
            == tracked_positions(input.fields()).len(),
        input.outcome()->Err_0.diagnostics().len() == 1,
        input.outcome()->Err_0.diagnostics()[0].message == too_many_message(
            tracked_positions(input.fields()).len(),
        ),
{
}

/// A struct without a field marked as flag storage is refused. One with
/// several is refused too, and the error holds the position of each of
/// them, and a message that points at each.
pub proof fn lemma_flag_count_refused(input: InputView)
    requires
        input.data is Struct,
        flag_positions(input.fields()).len() != 1,
    ensures
        flag_positions(input.fields()).len() == 0 ==> input.outcome() == Err::<
            Expansion,
            ErrorView,
        >(ErrorView::MissingFlag),
        flag_positions(input.fields()).len() > 1 ==> {
            &&& input.outcome() matches Err(ErrorView::MultipleFlags { fields })
            &&& forall|i: int|
                0 <= i < input.fields().len() ==> (input.fields()[i].flag <==> fields.contains(i))
            &&& input.outcome()->Err_0.diagnostics().len() == fields.len()
            &&& forall|k: int|
                0 <= k < fields.len() ==> (
                #[trigger] input.outcome()->Err_0.diagnostics()[k]).anchor == AnchorView::Field(
                    fields[k],
                )
        },
{
    lemma_flag_positions(input.fields());
}

/// Where code is generated, the accessor pairs are those of the fields that
/// are neither skipped nor the flag storage, one pair for each in declaration
/// order and none for any other field. A pair is a read accessor named like
/// the field and an accessor with `_mut` added to the name, for the type of
/// the field, public where the field is marked so and else as visible as the
/// field.
pub proof fn lemma_accessors_cover(input: InputView)
    requires
        input.outcome() is Ok,
    ensures
        input.expansion().accessors.len() == tracked_positions(input.fields()).len(),
        forall|i: int|
            0 <= i < input.fields().len() ==> (tracked_positions(input.fields()).contains(i) <==> !(
            #[trigger] input.fields()[i]).skip && !input.fields()[i].flag),
        forall|k: int|
            0 <= k < input.expansion().accessors.len() ==> {
                let field = input.fields()[tracked_positions(input.fields())[k]];
                let pair = #[trigger] input.expansion().accessors[k];
                &&& field.ident is Some
                &&& pair.field == field.ident.unwrap()
                &&& pair.getter == strip_raw(field.ident.unwrap())
                &&& pair.getter_mut == strip_raw(field.ident.unwrap()) + "_mut"@
                &&& pair.ty == field.ty
                &&& pair.vis == if field.pub_ {
                    VisibilityView::Public
                } else {
                    field.vis
                }
            },
{
    let fields = input.fields();
    lemma_tracked_positions(fields);
    lemma_unnamed_positions(fields);
}

} // verus!
