//! The generated code as text.

use crate::derive::expand::accessor_pairs;
use crate::derive::expand::flag_consts;
use crate::derive::expand::Expansion;
use crate::derive::expand::FlagConst;
use crate::derive::field::accessors_text;
use crate::derive::field::vis_text;
use crate::derive::field::Accessors;
use crate::derive::field::TrackedField;
use crate::derive::field::Visibility;
use crate::derive::field::VisibilityView;
use crate::derive::input::as_ints;
use crate::derive::input::flag_fields;
use crate::derive::input::flag_positions;
use crate::derive::input::lemma_flag_positions;
use crate::derive::input::lemma_tracked_positions;
use crate::derive::input::lemma_unnamed_positions;
use crate::derive::input::tracked_fields;
use crate::derive::input::tracked_positions;
use crate::derive::input::views;
use crate::derive::input::Data;
use crate::derive::input::GenericsView;
use crate::derive::input::TrackedInput;
use crate::derive::text::decimal;
use crate::derive::text::push_decimal;
use crate::derive::text::unraw;
use crate::derive::width::bits_ty;
use crate::derive::width::BitsTy;
use vstd::prelude::*;
use vstd::string::StringExecFns;

verus! {

/// The text of one constant of the flags type.
pub open spec fn flag_const_text(c: FlagConst) -> Seq<char> {
    "        const "@ + c.name + " = 1 << "@ + decimal(c.index) + "usize;\n"@
}

/// The text of the first `n` constants of the flags type.
pub open spec fn flags_text(flags: Seq<FlagConst>, n: int) -> Seq<char>
    decreases n,
{
    if n <= 0 {
        Seq::empty()
    } else {
        flags_text(flags, n - 1) + flag_const_text(flags[n - 1])
    }
}

/// The text of the first `n` accessor pairs.
pub open spec fn all_accessors_text(accessors: Seq<Accessors>, n: int) -> Seq<char>
    decreases n,
{
    if n <= 0 {
        Seq::empty()
    } else {
        all_accessors_text(accessors, n - 1) + accessors_text(accessors[n - 1])
    }
}

/// A `where` clause as it follows the type of an impl, with the blank that
/// parts it from the type; nothing for no clause.
pub open spec fn where_text(clause: Seq<char>) -> Seq<char> {
    if clause.len() == 0 {
        Seq::empty()
    } else {
        " "@ + clause
    }
}

/// The struct as the type of an impl: its name, its generic arguments and
/// its `where` clause.
pub open spec fn target_text(ident: Seq<char>, generics: GenericsView) -> Seq<char> {
    ident + generics.args + where_text(generics.where_clause)
}

/// The declaration of the flags type around its constants.
pub open spec fn flags_type_text(
    vis: VisibilityView,
    flag_ty: Seq<char>,
    bits: BitsTy,
    consts: Seq<char>,
) -> Seq<char> {
    "trackr::__reexport::bitflags! {\n"@
        + "    #[repr(transparent)]\n"@
        + "    #[derive(Debug, Clone, Copy, PartialEq, Eq, Hash, Default)]\n"@
        + "    "@ + vis_text(vis) + "struct "@ + flag_ty + ": "@ + bits.name() + " {\n"@
        + consts
        + "    }\n"@
        + "}\n"@
}

/// The flag operations that the wrapper and the drain need of the flags
/// type, each handed on to the operation that the flags type has of its own.
pub open spec fn flags_impl_text(flag_ty: Seq<char>) -> Seq<char> {
    "impl trackr::Flags for "@ + flag_ty + " {\n"@
        + "    fn empty() -> Self {\n"@
        + "        <Self as trackr::__reexport::Flags>::empty()\n"@
        + "    }\n"@
        + "\n"@
        + "    fn is_empty(&self) -> bool {\n"@
        + "        trackr::__reexport::Flags::is_empty(self)\n"@
        + "    }\n"@
        + "\n"@
        + "    fn insert(&mut self, other: Self) {\n"@
        + "        trackr::__reexport::Flags::insert(self, other)\n"@
        + "    }\n"@
        + "}\n"@
}

/// The impl of the struct that holds the accessor pairs.
pub open spec fn accessors_impl_text(
    params: Seq<char>,
    target: Seq<char>,
    pairs: Seq<char>,
) -> Seq<char> {
    "impl"@ + params + " "@ + target + " {\n"@
        + pairs
        + "}\n"@
}

/// The impl that hands out the flag storage of the struct.
pub open spec fn struct_impl_text(
    params: Seq<char>,
    target: Seq<char>,
    flag_ty: Seq<char>,
    tracker_field: Seq<char>,
) -> Seq<char> {
    "impl"@ + params + " trackr::TrackedStruct for "@ + target + " {\n"@
        + "    type Flags = "@ + flag_ty + ";\n"@
        + "\n"@
        + "    fn flags(&self) -> Self::Flags {\n"@
        + "        self."@ + tracker_field + "\n"@
        + "    }\n"@
        + "\n"@
        + "    fn flags_mut(&mut self) -> &mut Self::Flags {\n"@
        + "        &mut self."@ + tracker_field + "\n"@
        + "    }\n"@
        + "}\n"@
}

/// The generated code as text: the flags type with its constants, the flag
/// operations of that type, the accessors, and the impl that hands out the
/// flag storage, with an empty line between one and the next.
pub open spec fn expansion_text(e: Expansion) -> Seq<char> {
    flags_type_text(e.vis, e.flag_ty, e.bits, flags_text(e.flags, e.flags.len() as int))
        + "\n"@
        + flags_impl_text(e.flag_ty)
        + "\n"@
        + accessors_impl_text(
        e.generics.params,
        target_text(e.ident, e.generics),
        all_accessors_text(e.accessors, e.accessors.len() as int),
    )
        + "\n"@
        + struct_impl_text(
        e.generics.params,
        target_text(e.ident, e.generics),
        e.flag_ty,
        e.tracker_field,
    )
}

/// What the two loops over the tracked fields rely on: `places` holds the
/// positions of the tracked fields, and each of them has a name.
spec fn places_of(fields: Seq<TrackedField>, places: Seq<usize>) -> bool {
    &&& as_ints(places) == tracked_positions(views(fields))
    &&& forall|j: int|
        0 <= j < places.len() ==> {
            &&& 0 <= #[trigger] places[j] < fields.len()
            &&& fields[places[j] as int]@.is_tracked()
            &&& fields[places[j] as int]@.ident is Some
        }
}

fn constants(fields: &Vec<TrackedField>, places: &Vec<usize>) -> (r: String)
    requires
        places_of(fields@, places@),
    ensures
        r@ == flags_text(flag_consts(views(fields@)), places.len() as int),
{
    let ghost consts = flag_consts(views(fields@));
    let mut out = String::new();
    let mut k: usize = 0;
    while k < places.len()
        invariant
            k <= places.len(),
            places_of(fields@, places@),
            consts == flag_consts(views(fields@)),
            out@ == flags_text(consts, k as int),
        decreases places.len() - k,
    {
        out.append("        const ");
        out.append(fields[places[k]].ident().as_str());
        out.append(" = 1 << ");
        push_decimal(&mut out, k);
        out.append("usize;\n");
        k += 1;
    }
    out
}

fn accessors(
    fields: &Vec<TrackedField>,
    places: &Vec<usize>,
    flag_ty: &str,
    tracker_field: &str,
) -> (r: String)
    requires
        places_of(fields@, places@),
    ensures
        r@ == all_accessors_text(
            accessor_pairs(views(fields@), flag_ty@, tracker_field@),
            places.len() as int,
        ),
{
    let ghost pairs = accessor_pairs(views(fields@), flag_ty@, tracker_field@);
    let mut out = String::new();
    let mut k: usize = 0;
    while k < places.len()
        invariant
            k <= places.len(),
            places_of(fields@, places@),
            pairs == accessor_pairs(views(fields@), flag_ty@, tracker_field@),
            out@ == all_accessors_text(pairs, k as int),
        decreases places.len() - k,
    {
        let field = &fields[places[k]];
        match field.gen_impl(&field.vis, flag_ty, tracker_field) {
            Some(pair) => out.append(pair.as_str()),
            None => {},
        }
        k += 1;
    }
    out
}

fn flags_type(vis: &Visibility, flag_ty: &str, bits: BitsTy, consts: &str) -> (r: String)
    ensures
        r@ == flags_type_text(vis@, flag_ty@, bits, consts@),
{
    let mut out = String::from_str("trackr::__reexport::bitflags! {\n");
    out.append("    #[repr(transparent)]\n");
    out.append("    #[derive(Debug, Clone, Copy, PartialEq, Eq, Hash, Default)]\n");
    out.append("    ");
    out.append(vis.text().as_str());
    out.append("struct ");
    out.append(flag_ty);
    out.append(": ");
    out.append(bits.as_str());
    out.append(" {\n");
    out.append(consts);
    out.append("    }\n");
    out.append("}\n");
    out
}

fn flags_impl(flag_ty: &str) -> (r: String)
    ensures
        r@ == flags_impl_text(flag_ty@),
{
    let mut out = String::from_str("impl trackr::Flags for ");
    out.append(flag_ty);
    out.append(" {\n");
    out.append("    fn empty() -> Self {\n");
    out.append("        <Self as trackr::__reexport::Flags>::empty()\n");
    out.append("    }\n");
    out.append("\n");
    out.append("    fn is_empty(&self) -> bool {\n");
    out.append("        trackr::__reexport::Flags::is_empty(self)\n");
    out.append("    }\n");
    out.append("\n");
    out.append("    fn insert(&mut self, other: Self) {\n");
    out.append("        trackr::__reexport::Flags::insert(self, other)\n");
    out.append("    }\n");
    out.append("}\n");
    out
}

fn accessors_impl(params: &str, target: &str, pairs: &str) -> (r: String)
    ensures
        r@ == accessors_impl_text(params@, target@, pairs@),
{
    let mut out = String::from_str("impl");
    out.append(params);
    out.append(" ");
    out.append(target);
    out.append(" {\n");
    out.append(pairs);
    out.append("}\n");
    out
}

fn struct_impl(params: &str, target: &str, flag_ty: &str, tracker_field: &str) -> (r: String)
    ensures
        r@ == struct_impl_text(params@, target@, flag_ty@, tracker_field@),
{
    let mut out = String::from_str("impl");
    out.append(params);
    out.append(" trackr::TrackedStruct for ");
    out.append(target);
    out.append(" {\n");
    out.append("    type Flags = ");
    out.append(flag_ty);
    out.append(";\n");
    out.append("\n");
    out.append("    fn flags(&self) -> Self::Flags {\n");
    out.append("        self.");
    out.append(tracker_field);
    out.append("\n");
    out.append("    }\n");
    out.append("\n");
    out.append("    fn flags_mut(&mut self) -> &mut Self::Flags {\n");
    out.append("        &mut self.");
    out.append(tracker_field);
    out.append("\n");
    out.append("    }\n");
    out.append("}\n");
    out
}

impl TrackedInput {
    fn target(&self) -> (r: String)
        ensures
            r@ == target_text(self@.ident, self@.generics),
    {
        let mut out = self.ident.clone();
        out.append(self.generics.args.as_str());
        if !self.generics.where_clause.as_str().is_empty() {
            out.append(" ");
            out.append(self.generics.where_clause.as_str());
        }
        out
    }

    /// Appends the generated code to `tokens`. The flag storage is the first
    /// field that is marked so.
    pub fn to_tokens(&self, tokens: &mut String)
        requires
            self@.expandable(),
        ensures
            final(tokens)@ == old(tokens)@ + expansion_text(self@.expansion()),
    {
        let fields = match &self.data {
            Data::Struct(fields) => fields,
            Data::Enum => {
                return ;
            },
        };
        let flagged = flag_fields(fields);
        let places = tracked_fields(fields);
        proof {
            let model = views(fields@);
            lemma_flag_positions(model);
            lemma_tracked_positions(model);
            lemma_unnamed_positions(model);
            assert forall|j: int| 0 <= j < places.len() implies {
                &&& 0 <= #[trigger] places[j] < fields.len()
                &&& fields[places[j] as int]@.is_tracked()
                &&& fields[places[j] as int]@.ident is Some
            } by {
                assert(tracked_positions(model)[j] == as_ints(places@)[j]);
            }
        }
        let tracker_field = fields[flagged[0]].ident();
        let mut flag_ty = String::from_str(unraw(self.ident.as_str()));
        flag_ty.append("Flags");
        let target = self.target();
        let consts = constants(fields, &places);
        let pairs = accessors(fields, &places, flag_ty.as_str(), tracker_field.as_str());

        let bits = match bits_ty(places.len()) {
            Ok(bits) => bits,
            Err(_) => {
                return ;
            },
        };
        let mut out = flags_type(&self.vis, flag_ty.as_str(), bits, consts.as_str());
        out.append("\n");
        out.append(flags_impl(flag_ty.as_str()).as_str());
        out.append("\n");
        out.append(
            accessors_impl(
                self.generics.params.as_str(),
                target.as_str(),
                pairs.as_str(),
            ).as_str(),
        );
        out.append("\n");
        out.append(
            struct_impl(
                self.generics.params.as_str(),
                target.as_str(),
                flag_ty.as_str(),
                tracker_field.as_str(),
            ).as_str(),
        );
        tokens.append(out.as_str());
    }
}

} // verus!
