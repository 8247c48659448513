//! One field of the struct, as its markers describe it, and the accessor
//! pair that is generated for it.

use crate::derive::text::strip_raw;
use crate::derive::text::unraw;
use vstd::prelude::*;
use vstd::string::StringExecFns;

verus! {

/// The visibility of an item: `pub`, `pub(..)` with what stands between the
/// brackets, or none.
#[derive(Debug)]
pub enum Visibility {
    Public,
    Restricted(String),
    Inherited,
}

/// The model of a [`Visibility`].
pub enum VisibilityView {
    Public,
    Restricted(Seq<char>),
    Inherited,
}

impl View for Visibility {
    type V = VisibilityView;

    open spec fn view(&self) -> VisibilityView {
        match self {
            Visibility::Public => VisibilityView::Public,
            Visibility::Restricted(scope) => VisibilityView::Restricted(scope@),
            Visibility::Inherited => VisibilityView::Inherited,
        }
    }
}

impl Clone for Visibility {
    fn clone(&self) -> (r: Self)
        ensures
            r@ == self@,
    {
        match self {
            Visibility::Public => Visibility::Public,
            Visibility::Restricted(scope) => Visibility::Restricted(scope.clone()),
            Visibility::Inherited => Visibility::Inherited,
        }
    }
}

/// A visibility as it is written in front of an item, with the blank that
/// parts it from the item.
pub open spec fn vis_text(vis: VisibilityView) -> Seq<char> {
    match vis {
        VisibilityView::Public => "pub "@,
        VisibilityView::Restricted(scope) => "pub("@ + scope + ") "@,
        VisibilityView::Inherited => Seq::empty(),
    }
}

impl Visibility {
    /// The visibility as it is written in front of an item.
    pub fn text(&self) -> (r: String)
        ensures
            r@ == vis_text(self@),
    {
        match self {
            Visibility::Public => String::from_str("pub "),
            Visibility::Restricted(scope) => {
                let mut out = String::from_str("pub(");
                out.append(scope.as_str());
                out.append(") ");
                out
            },
            Visibility::Inherited => String::new(),
        }
    }
}

/// A field of the struct: its name, where it has one, its visibility, its
/// type as written, and its three markers.
#[derive(Debug)]
pub struct TrackedField {
    pub ident: Option<String>,
    pub vis: Visibility,
    pub ty: String,
    /// The field is left out of the tracking and gets no accessors.
    pub skip: bool,
    /// The field is the flag storage.
    pub flag: bool,
    /// The accessors of the field are public, whatever the field is.
    pub pub_: bool,
}

/// The model of a [`TrackedField`].
pub struct FieldView {
    pub ident: Option<Seq<char>>,
    pub vis: VisibilityView,
    pub ty: Seq<char>,
    pub skip: bool,
    pub flag: bool,
    pub pub_: bool,
}

impl View for TrackedField {
    type V = FieldView;

    open spec fn view(&self) -> FieldView {
        FieldView {
            ident: match self.ident {
                Some(name) => Some(name@),
                None => None,
            },
            vis: self.vis@,
            ty: self.ty@,
            skip: self.skip,
            flag: self.flag,
            pub_: self.pub_,
        }
    }
}

/// The accessor pair of one field: the names and types that its text is
/// made of.
pub struct Accessors {
    /// The visibility of both accessors.
    pub vis: VisibilityView,
    /// The field that they read and write.
    pub field: Seq<char>,
    /// The name of the read accessor.
    pub getter: Seq<char>,
    /// The name of the accessor that hands out the wrapper.
    pub getter_mut: Seq<char>,
    /// The type of the field.
    pub ty: Seq<char>,
    /// The flags type; the field's flag is its constant named like the field.
    pub flag_ty: Seq<char>,
    /// The field that stores the flags.
    pub tracker_field: Seq<char>,
}

impl FieldView {
    /// A field is tracked unless it is the flag storage or is skipped.
    pub open spec fn is_tracked(self) -> bool {
        !self.flag && !self.skip
    }

    /// The accessor pair that `gen_impl` writes for the field: one for a
    /// tracked field, none for a skipped field and none for the flag storage.
    /// `vis` is the visibility that the accessors get unless the field forces
    /// them public.
    pub open spec fn accessors(
        self,
        vis: VisibilityView,
        flag_ty: Seq<char>,
        tracker_field: Seq<char>,
    ) -> Option<Accessors>
        recommends
            !self.is_tracked() || self.ident is Some,
    {
        if !self.is_tracked() {
            None
        } else {
            Some(
                Accessors {
                    vis: if self.pub_ {
                        VisibilityView::Public
                    } else {
                        vis
                    },
                    field: self.ident.unwrap(),
                    getter: strip_raw(self.ident.unwrap()),
                    getter_mut: strip_raw(self.ident.unwrap()) + "_mut"@,
                    ty: self.ty,
                    flag_ty,
                    tracker_field,
                },
            )
        }
    }
}

/// The text of an accessor pair: a method that borrows the field, and one
/// that binds the field, its flag and the flag storage into a wrapper.
pub open spec fn accessors_text(a: Accessors) -> Seq<char> {
    "    "@ + vis_text(a.vis) + "fn "@ + a.getter + "(&self) -> &"@ + a.ty + " {\n"@
        + "        &self."@ + a.field + "\n"@
        + "    }\n"@
        + "\n"@
        + "    "@ + vis_text(a.vis) + "fn "@ + a.getter_mut
        + "(&mut self) -> trackr::TrackedField<'_, "@ + a.ty + ", "@ + a.flag_ty + "> {\n"@
        + "        trackr::TrackedField::new(\n"@
        + "            "@ + a.flag_ty + "::"@ + a.field + ",\n"@
        + "            &mut self."@ + a.tracker_field + ",\n"@
        + "            &mut self."@ + a.field + ",\n"@
        + "        )\n"@
        + "    }\n"@
}

impl TrackedField {
    /// The name of the field.
    pub fn ident(&self) -> (r: String)
        requires
            self.ident is Some,
        ensures
            r@ == self@.ident.unwrap(),
    {
        match &self.ident {
            Some(name) => name.clone(),
            None => String::new(),
        }
    }

    /// Whether the field is tracked: neither the flag storage nor skipped.
    pub fn is_tracked(&self) -> (r: bool)
        ensures
            r == self@.is_tracked(),
    {
        !self.flag && !self.skip
    }

    /// Writes the accessor pair of a tracked field, and nothing for a field
    /// that is skipped or is the flag storage. The accessors get the
    /// visibility `vis`, or `pub` where the field is marked so; the flag of
    /// the field is the constant of `flag_ty` that is named like the field.
    pub fn gen_impl(&self, vis: &Visibility, flag_ty: &str, tracker_field: &str) -> (r: Option<
        String,
    >)
        requires
            !self@.is_tracked() || self.ident is Some,
        ensures
            (r is Some) == self@.is_tracked(),
            match self@.accessors(vis@, flag_ty@, tracker_field@) {
                Some(a) => r is Some && r.unwrap()@ == accessors_text(a),
                None => r is None,
            },
    {
        if !self.is_tracked() {
            return None;
        }
        let vis = if self.pub_ {
            Visibility::Public
        } else {
            vis.clone()
        };
        let ident = self.ident();
        let vis = vis.text();
        let get = unraw(ident.as_str());

        let mut out = String::from_str("    ");
        out.append(vis.as_str());
        out.append("fn ");
        out.append(get);
        out.append("(&self) -> &");
        out.append(self.ty.as_str());
        out.append(" {\n");
        out.append("        &self.");
        out.append(ident.as_str());
        out.append("\n");
        out.append("    }\n");
        out.append("\n");
        out.append("    ");
        out.append(vis.as_str());
        out.append("fn ");
        out.append(get);
        out.append("_mut");
        out.append("(&mut self) -> trackr::TrackedField<'_, ");
        out.append(self.ty.as_str());
        out.append(", ");
        out.append(flag_ty);
        out.append("> {\n");
        out.append("        trackr::TrackedField::new(\n");
        out.append("            ");
        out.append(flag_ty);
        out.append("::");
        out.append(ident.as_str());
        out.append(",\n");
        out.append("            &mut self.");
        out.append(tracker_field);
        out.append(",\n");
        out.append("            &mut self.");
        out.append(ident.as_str());
        out.append(",\n");
        out.append("        )\n");
        out.append("    }\n");
        Some(out)
    }
}

} // verus!
