//! Why a struct is refused, and the messages that say so.

use crate::derive::input::as_ints;
use crate::derive::text::decimal;
use crate::derive::text::push_decimal;
use crate::derive::width::MAX_TRACKED;
use vstd::prelude::*;
use vstd::string::StringExecFns;

verus! {

/// The place in the input that a message points at: the annotated item as a
/// whole, or its field at a position.
#[derive(Clone, Copy, Debug, PartialEq, Eq, Structural)]
pub enum Anchor {
    Input,
    Field(usize),
}

/// The model of an [`Anchor`].
pub enum AnchorView {
    Input,
    Field(int),
}

impl View for Anchor {
    type V = AnchorView;

    open spec fn view(&self) -> AnchorView {
        match self {
            Anchor::Input => AnchorView::Input,
            Anchor::Field(position) => AnchorView::Field(*position as int),
        }
    }
}

/// Why no code is generated for an input.
#[derive(Debug, PartialEq, Eq)]
pub enum DeriveError {
    /// The annotated item is no struct.
    NotAStruct,
    /// No field is marked as the flag storage.
    MissingFlag,
    /// More than one field is marked as the flag storage; `fields` holds the
    /// positions of all of them.
    MultipleFlags { fields: Vec<usize> },
    /// There are `count` tracked fields, more than a flags type has bits for.
    TooManyTracked { count: usize, anchor: Anchor },
    /// The field marked as the flag storage has no name.
    UnnamedFlag { field: usize },
    /// A field that is to be tracked has no name.
    UnnamedField { field: usize },
}

/// The model of a [`DeriveError`].
pub enum ErrorView {
    NotAStruct,
    MissingFlag,
    MultipleFlags { fields: Seq<int> },
    TooManyTracked { count: nat, anchor: AnchorView },
    UnnamedFlag { field: int },
    UnnamedField { field: int },
}

impl View for DeriveError {
    type V = ErrorView;

    open spec fn view(&self) -> ErrorView {
        match self {
            DeriveError::NotAStruct => ErrorView::NotAStruct,
            DeriveError::MissingFlag => ErrorView::MissingFlag,
            DeriveError::MultipleFlags { fields } => ErrorView::MultipleFlags {
                fields: as_ints(fields@),
            },
            DeriveError::TooManyTracked { count, anchor } => ErrorView::TooManyTracked {
                count: *count as nat,
                anchor: anchor@,
            },
            DeriveError::UnnamedFlag { field } => ErrorView::UnnamedFlag { field: *field as int },
            DeriveError::UnnamedField { field } => ErrorView::UnnamedField { field: *field as int },
        }
    }
}

/// One message and the place that it points at.
#[derive(Debug, PartialEq, Eq)]
pub struct Diagnostic {
    pub anchor: Anchor,
    pub message: String,
}

/// The model of a [`Diagnostic`].
pub struct DiagnosticView {
    pub anchor: AnchorView,
    pub message: Seq<char>,
}

impl View for Diagnostic {
    type V = DiagnosticView;

    open spec fn view(&self) -> DiagnosticView {
        DiagnosticView { anchor: self.anchor@, message: self.message@ }
    }
}

/// The message for `count` tracked fields where that is too many: it names
/// the count and the most that is supported.
pub open spec fn too_many_message(count: nat) -> Seq<char> {
    "too many tracked fields: "@ + decimal(count) + " (maximum supported is "@ + decimal(
        MAX_TRACKED as nat,
    ) + ")"@
}

/// The message at the flag field in place `k` of those found: the first is
/// told from the ones that follow it.
pub open spec fn multiple_flags_message(k: int) -> Seq<char> {
    if k == 0 {
        "multiple #[track(flag)] fields found (first)"@
    } else {
        "additional #[track(flag)] field here"@
    }
}

impl ErrorView {
    /// The messages of an error, in the order in which they are reported.
    /// There is one but for several flag fields, where each such field gets
    /// a message of its own.
    pub open spec fn diagnostics(self) -> Seq<DiagnosticView> {
        match self {
            ErrorView::NotAStruct => seq![
                DiagnosticView {
                    anchor: AnchorView::Input,
                    message: "#[derive(Tracked)] only supports structs"@,
                },
            ],
            ErrorView::MissingFlag => seq![
                DiagnosticView {
                    anchor: AnchorView::Input,
                    message: "missing a field marked with #[track(flag)]"@,
                },
            ],
            ErrorView::MultipleFlags { fields } => Seq::new(
                fields.len(),
                |k: int|
                    DiagnosticView {
                        anchor: AnchorView::Field(fields[k]),
                        message: multiple_flags_message(k),
                    },
            ),
            ErrorView::TooManyTracked { count, anchor } => seq![
                DiagnosticView { anchor, message: too_many_message(count) },
            ],
            ErrorView::UnnamedFlag { field } => seq![
                DiagnosticView {
                    anchor: AnchorView::Field(field),
                    message: "Tracker field must be named"@,
                },
            ],
            ErrorView::UnnamedField { field } => seq![
                DiagnosticView {
                    anchor: AnchorView::Field(field),
                    message: "a tracked field must be named"@,
                },
            ],
        }
    }
}

/// The models of `diagnostics`, one for one.
pub open spec fn diagnostic_views(diagnostics: Seq<Diagnostic>) -> Seq<DiagnosticView> {
    diagnostics.map_values(|d: Diagnostic| d@)
}

fn single(anchor: Anchor, message: &str) -> (r: Vec<Diagnostic>)
    ensures
        diagnostic_views(r@) == seq![DiagnosticView { anchor: anchor@, message: message@ }],
{
    let mut out: Vec<Diagnostic> = Vec::new();
    out.push(Diagnostic { anchor, message: String::from_str(message) });
    out
}

impl DeriveError {
    /// The messages of the error, each with the place that it points at, in
    /// the order in which they are reported.
    pub fn diagnostics(&self) -> (r: Vec<Diagnostic>)
        ensures
            diagnostic_views(r@) == self@.diagnostics(),
    {
        match self {
            DeriveError::NotAStruct => single(
                Anchor::Input,
                "#[derive(Tracked)] only supports structs",
            ),
            DeriveError::MissingFlag => single(
                Anchor::Input,
                "missing a field marked with #[track(flag)]",
            ),
            DeriveError::MultipleFlags { fields } => {
                let mut out: Vec<Diagnostic> = Vec::new();
                let mut k: usize = 0;
                while k < fields.len()
                    invariant
                        k <= fields.len(),
                        out.len() == k,
                        forall|j: int|
                            0 <= j < k ==> (#[trigger] out[j])@ == (DiagnosticView {
                                anchor: AnchorView::Field(fields[j] as int),
                                message: multiple_flags_message(j),
                            }),
                    decreases fields.len() - k,
                {
                    let message = if k == 0 {
                        String::from_str("multiple #[track(flag)] fields found (first)")
                    } else {
                        String::from_str("additional #[track(flag)] field here")
                    };
                    out.push(Diagnostic { anchor: Anchor::Field(fields[k]), message });
                    k += 1;
                }
                out
            },
            DeriveError::TooManyTracked { count, anchor } => {
                let mut message = String::from_str("too many tracked fields: ");
                push_decimal(&mut message, *count);
                message.append(" (maximum supported is ");
                push_decimal(&mut message, MAX_TRACKED);
                message.append(")");
                single(*anchor, message.as_str())
            },
            DeriveError::UnnamedFlag { field } => single(
                Anchor::Field(*field),
                "Tracker field must be named",
            ),
            DeriveError::UnnamedField { field } => single(
                Anchor::Field(*field),
                "a tracked field must be named",
            ),
        }
    }
}

} // verus!
