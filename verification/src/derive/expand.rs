//! From the struct to the code: what is generated for a struct, and the
//! entry point, which refuses a struct that cannot be tracked.

use crate::derive::emit::expansion_text;
use crate::derive::error::Anchor;
use crate::derive::error::AnchorView;
use crate::derive::error::DeriveError;
use crate::derive::error::ErrorView;
use crate::derive::field::Accessors;
use crate::derive::field::FieldView;
use crate::derive::field::VisibilityView;
use crate::derive::input::flag_fields;
use crate::derive::input::flag_positions;
use crate::derive::input::lemma_flag_positions;
use crate::derive::input::tracked_fields;
use crate::derive::input::tracked_positions;
use crate::derive::input::unnamed_fields;
use crate::derive::input::unnamed_positions;
use crate::derive::input::views;
use crate::derive::input::Data;
use crate::derive::input::GenericsView;
use crate::derive::input::InputView;
use crate::derive::input::TrackedInput;
use crate::derive::text::strip_raw;
use crate::derive::width::width_for;
use crate::derive::width::BitsTy;
use crate::derive::width::MAX_TRACKED;
use vstd::prelude::*;

verus! {

/// One constant of the flags type: the flag of a tracked field, named like
/// the field, with the bit at `index` set.
pub struct FlagConst {
    pub name: Seq<char>,
    pub index: nat,
}

/// What is generated for a struct.
pub struct Expansion {
    /// The visibility of the flags type: that of the struct.
    pub vis: VisibilityView,
    /// The name of the struct.
    pub ident: Seq<char>,
    /// The generics of the struct.
    pub generics: GenericsView,
    /// The name of the flags type.
    pub flag_ty: Seq<char>,
    /// The storage of the flags type.
    pub bits: BitsTy,
    /// The constants of the flags type, one for each tracked field, in
    /// declaration order.
    pub flags: Seq<FlagConst>,
    /// The accessor pairs, one for each tracked field, in declaration order.
    pub accessors: Seq<Accessors>,
    /// The name of the field that stores the flags.
    pub tracker_field: Seq<char>,
}

/// The constants of the flags type for `fields`: one for each tracked field,
/// named like the field, with the bit at the place of the field among the
/// tracked fields.
pub open spec fn flag_consts(fields: Seq<FieldView>) -> Seq<FlagConst> {
    let places = tracked_positions(fields);
    Seq::new(
        places.len(),
        |k: int| FlagConst { name: fields[places[k]].ident.unwrap(), index: k as nat },
    )
}

/// The accessor pairs for `fields`: one for each tracked field, with the
/// visibility of the field unless the field forces them public.
pub open spec fn accessor_pairs(
    fields: Seq<FieldView>,
    flag_ty: Seq<char>,
    tracker_field: Seq<char>,
) -> Seq<Accessors> {
    let places = tracked_positions(fields);
    Seq::new(
        places.len(),
        |k: int|
            fields[places[k]].accessors(fields[places[k]].vis, flag_ty, tracker_field).unwrap(),
    )
}

impl InputView {
    /// Whether code can be written for the input as it stands: it is a
    /// struct, its first field marked as flag storage has a name, and its
    /// tracked fields are named and no more than a flags type has bits for.
    pub open spec fn expandable(self) -> bool {
        let fields = self.fields();
        &&& self.data is Struct
        &&& flag_positions(fields).len() >= 1
        &&& fields[flag_positions(fields)[0]].ident is Some
        &&& tracked_positions(fields).len() <= MAX_TRACKED
        &&& unnamed_positions(fields).len() == 0
    }

    /// What is generated for the input. The flags type is named after the
    /// struct; each tracked field gets the bit at its place among the
    /// tracked fields, and accessors with its own visibility.
    pub open spec fn expansion(self) -> Expansion
        recommends
            self.expandable(),
    {
        let fields = self.fields();
        let tracker_field = fields[flag_positions(fields)[0]].ident.unwrap();
        let flag_ty = strip_raw(self.ident) + "Flags"@;
        Expansion {
            vis: self.vis,
            ident: self.ident,
            generics: self.generics,
            flag_ty,
            bits: width_for(tracked_positions(fields).len()),
            flags: flag_consts(fields),
            accessors: accessor_pairs(fields, flag_ty, tracker_field),
            tracker_field,
        }
    }

    /// What the generator answers for the input: the first of the reasons
    /// to refuse it that applies, or else what is generated.
    pub open spec fn outcome(self) -> Result<Expansion, ErrorView> {
        let fields = self.fields();
        let flags = flag_positions(fields);
        let places = tracked_positions(fields);
        if self.data is Enum {
            Err(ErrorView::NotAStruct)
        } else if flags.len() == 0 {
            Err(ErrorView::MissingFlag)
        } else if flags.len() > 1 {
            Err(ErrorView::MultipleFlags { fields: flags })
        } else if places.len() > MAX_TRACKED {
            Err(
                ErrorView::TooManyTracked {
                    count: places.len(),
                    anchor: if fields[flags[0]].ident is Some {
                        AnchorView::Field(flags[0])
                    } else {
                        AnchorView::Input
                    },
                },
            )
        } else if fields[flags[0]].ident is None {
            Err(ErrorView::UnnamedFlag { field: flags[0] })
        } else if unnamed_positions(fields).len() > 0 {
            Err(ErrorView::UnnamedField { field: unnamed_positions(fields)[0] })
        } else {
            Ok(self.expansion())
        }
    }
}

/// Generates the code for `input`, or says why there is none. The input is
/// refused, in this order, where it is no struct, where no field or more
/// than one is marked as flag storage, where it has more tracked fields than
/// a flags type has bits for, and where the flag storage or a tracked field
/// has no name.
pub fn derive_tracked(input: &TrackedInput) -> (r: Result<String, DeriveError>)
    ensures
        match input@.outcome() {
            Ok(e) => r is Ok && r.unwrap()@ == expansion_text(e),
            Err(reason) => r is Err && r.unwrap_err()@ == reason,
        },
{
    let fields = match &input.data {
        Data::Struct(fields) => fields,
        Data::Enum => {
            return Err(DeriveError::NotAStruct);
        },
    };
    let flagged = flag_fields(fields);
    if flagged.len() == 0 {
        return Err(DeriveError::MissingFlag);
    }
    if flagged.len() > 1 {
        return Err(DeriveError::MultipleFlags { fields: flagged });
    }
    proof {
        lemma_flag_positions(views(fields@));
    }
    let storage = flagged[0];
    let places = tracked_fields(fields);
    if places.len() > MAX_TRACKED {
        let anchor = if fields[storage].ident.is_some() {
            Anchor::Field(storage)
        } else {
            Anchor::Input
        };
        return Err(DeriveError::TooManyTracked { count: places.len(), anchor });
    }
    if fields[storage].ident.is_none() {
        return Err(DeriveError::UnnamedFlag { field: storage });
    }
    let unnamed = unnamed_fields(fields);
    if unnamed.len() > 0 {
        return Err(DeriveError::UnnamedField { field: unnamed[0] });
    }
    let mut out = String::new();
    input.to_tokens(&mut out);
    Ok(out)
}

} // verus!
