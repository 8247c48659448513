use trackr::derive::expand::derive_tracked;
use trackr::derive::field::{TrackedField, Visibility};
use trackr::derive::input::{Data, Generics, TrackedInput};
use trackr::TrackedStruct;

/// The struct that the code below is generated for.
#[derive(Default)]
pub struct Point {
    dirty: PointFlags,
    x: i32,
    pub y: i32,
    label: String,
}

fn point() -> TrackedInput {
    let field = |name: &str, ty: &str, vis: Visibility| TrackedField {
        ident: Some(name.to_string()),
        vis,
        ty: ty.to_string(),
        skip: false,
        flag: false,
        pub_: false,
    };
    let mut dirty = field("dirty", "PointFlags", Visibility::Inherited);
    dirty.flag = true;
    let mut x = field("x", "i32", Visibility::Inherited);
    x.pub_ = true;
    let y = field("y", "i32", Visibility::Public);
    let mut label = field("label", "String", Visibility::Inherited);
    label.skip = true;
    TrackedInput {
        ident: "Point".to_string(),
        data: Data::Struct(vec![dirty, x, y, label]),
        generics: Generics {
            params: String::new(),
            args: String::new(),
            where_clause: String::new(),
        },
        vis: Visibility::Public,
    }
}

/// The declaration of the flags type in the generated code.
const FLAGS_TYPE: &str = "\
trackr::__reexport::bitflags! {
    #[repr(transparent)]
    #[derive(Debug, Clone, Copy, PartialEq, Eq, Hash, Default)]
    pub struct PointFlags: u8 {
        const x = 1 << 0usize;
        const y = 1 << 1usize;
    }
}
";

/// The flags type that the declaration above stands for, written out as far
/// as the code after it needs it.
#[derive(Debug, Clone, Copy, PartialEq, Eq, Hash, Default)]
pub struct PointFlags(u8);

#[allow(non_upper_case_globals)]
impl PointFlags {
    pub const x: Self = PointFlags(1 << 0usize);
    pub const y: Self = PointFlags(1 << 1usize);
}

impl trackr::__reexport::Flags for PointFlags {
    const FLAGS: &'static [bitflags::Flag<Self>] = &[];

    type Bits = u8;

    fn bits(&self) -> u8 {
        self.0
    }

    fn from_bits_retain(bits: u8) -> Self {
        PointFlags(bits)
    }
}

/// The generated code after the declaration of the flags type. The items
/// that follow this text are the same, letter for letter.
const REST: &str = "\
impl trackr::Flags for PointFlags {
    fn empty() -> Self {
        <Self as trackr::__reexport::Flags>::empty()
    }

    fn is_empty(&self) -> bool {
        trackr::__reexport::Flags::is_empty(self)
    }

    fn insert(&mut self, other: Self) {
        trackr::__reexport::Flags::insert(self, other)
    }
}

impl Point {
    pub fn x(&self) -> &i32 {
        &self.x
    }

    pub fn x_mut(&mut self) -> trackr::TrackedField<'_, i32, PointFlags> {
        trackr::TrackedField::new(
            PointFlags::x,
            &mut self.dirty,
            &mut self.x,
        )
    }
    pub fn y(&self) -> &i32 {
        &self.y
    }

    pub fn y_mut(&mut self) -> trackr::TrackedField<'_, i32, PointFlags> {
        trackr::TrackedField::new(
            PointFlags::y,
            &mut self.dirty,
            &mut self.y,
        )
    }
}

impl trackr::TrackedStruct for Point {
    type Flags = PointFlags;

    fn flags(&self) -> Self::Flags {
        self.dirty
    }

    fn flags_mut(&mut self) -> &mut Self::Flags {
        &mut self.dirty
    }
}
";

impl trackr::Flags for PointFlags {
    fn empty() -> Self {
        <Self as trackr::__reexport::Flags>::empty()
    }

    fn is_empty(&self) -> bool {
        trackr::__reexport::Flags::is_empty(self)
    }

    fn insert(&mut self, other: Self) {
        trackr::__reexport::Flags::insert(self, other)
    }
}

impl Point {
    pub fn x(&self) -> &i32 {
        &self.x
    }

    pub fn x_mut(&mut self) -> trackr::TrackedField<'_, i32, PointFlags> {
        trackr::TrackedField::new(
            PointFlags::x,
            &mut self.dirty,
            &mut self.x,
        )
    }
    pub fn y(&self) -> &i32 {
        &self.y
    }

    pub fn y_mut(&mut self) -> trackr::TrackedField<'_, i32, PointFlags> {
        trackr::TrackedField::new(
            PointFlags::y,
            &mut self.dirty,
            &mut self.y,
        )
    }
}

impl trackr::TrackedStruct for Point {
    type Flags = PointFlags;

    fn flags(&self) -> Self::Flags {
        self.dirty
    }

    fn flags_mut(&mut self) -> &mut Self::Flags {
        &mut self.dirty
    }
}

#[test]
fn generated_code_for_point() {
    assert_eq!(
        derive_tracked(&point()).unwrap(),
        format!("{}\n{}", FLAGS_TYPE, REST)
    );
}

#[test]
fn generated_code_tracks_point() {
    let mut p = Point::default();
    assert_eq!(p.flags(), PointFlags(0));
    p.y_mut().set(0);
    assert_eq!(p.flags(), PointFlags(0));
    p.y_mut().set(-4);
    assert_eq!(p.flags(), PointFlags::y);
    p.x_mut().force_update(|x| *x += 1);
    assert_eq!(p.flags(), PointFlags(3));
    p.label.push_str("untracked");
    assert_eq!((*p.x(), *p.y()), (1, -4));
    assert_eq!(p.take_updates(), Some(PointFlags(3)));
    assert_eq!(p.flags(), PointFlags(0));
    assert_eq!(p.take_updates(), None);
    assert_eq!((*p.x(), *p.y()), (1, -4));
    assert_eq!(p.label, "untracked");
}

#[test]
fn generated_flag_operations_are_those_of_bitflags() {
    let mut flags = <PointFlags as trackr::Flags>::empty();
    assert!(trackr::Flags::is_empty(&flags));
    trackr::Flags::insert(&mut flags, PointFlags::y);
    assert_eq!(flags, PointFlags(2));
    assert!(!trackr::Flags::is_empty(&flags));
    trackr::Flags::insert(&mut flags, PointFlags::x);
    assert_eq!(flags, PointFlags(3));
    assert!(trackr::__reexport::Flags::contains(&flags, PointFlags::x));
}
