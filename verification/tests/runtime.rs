use trackr::{Flags, TrackedField, TrackedStruct};

const FLAG_A: u8 = 1 << 0;
const FLAG_B: u8 = 1 << 1;
const FLAG_C: u8 = 1 << 2;
const ALL: u8 = FLAG_A | FLAG_B | FLAG_C;

/// The struct of the walkthrough, with the accessors written out by hand and
/// a plain `u8` as flag storage.
#[derive(Default)]
struct A {
    tracker_flags: u8,
    a: u8,
    b: String,
    c: Vec<usize>,
    _d: u32,
}

impl A {
    fn a(&self) -> &u8 {
        &self.a
    }

    fn a_mut(&mut self) -> TrackedField<'_, u8, u8> {
        TrackedField::new(FLAG_A, &mut self.tracker_flags, &mut self.a)
    }

    fn b(&self) -> &String {
        &self.b
    }

    fn b_mut(&mut self) -> TrackedField<'_, String, u8> {
        TrackedField::new(FLAG_B, &mut self.tracker_flags, &mut self.b)
    }

    fn c(&self) -> &Vec<usize> {
        &self.c
    }

    fn c_mut(&mut self) -> TrackedField<'_, Vec<usize>, u8> {
        TrackedField::new(FLAG_C, &mut self.tracker_flags, &mut self.c)
    }
}

impl TrackedStruct for A {
    type Flags = u8;

    fn flags(&self) -> u8 {
        self.tracker_flags
    }

    fn flags_mut(&mut self) -> &mut u8 {
        &mut self.tracker_flags
    }
}

#[test]
fn basic_walkthrough() {
    let mut a = A::default();

    assert!(a.flags().is_empty());
    a.a_mut().set(2);
    assert_eq!(*a.a(), 2);
    *a.a_mut() += 2;
    assert_eq!(a.a(), &4);
    a.a_mut().update_opt(|a| a.checked_sub(5));
    assert_eq!(a.a(), &4);
    assert_eq!(a.flags(), FLAG_A);
    a.b_mut().set("Hello".to_string());
    a.c_mut().force_update(|c| c.push(1));
    assert_eq!(a.flags(), ALL);

    let updates = a.take_updates();
    assert_eq!(updates, Some(FLAG_A | FLAG_B | FLAG_C));
    assert!(a.take_updates().is_none());
}

#[test]
fn default_instance_has_no_flag() {
    let a = A::default();
    assert_eq!(a.flags(), 0);
    assert_eq!(a._d, 0);
}

#[test]
fn set_to_the_same_value_sets_no_flag() {
    let mut a = A::default();
    a.a_mut().set(0);
    assert_eq!(a.flags(), 0);
    a.b_mut().set(String::new());
    assert_eq!(a.flags(), 0);
    a.c_mut().set(Vec::new());
    assert_eq!(a.flags(), 0);
    assert!(a.take_updates().is_none());
}

#[test]
fn set_to_another_value_sets_exactly_that_flag() {
    let mut a = A::default();
    a.a_mut().set(1);
    assert_eq!(a.flags(), FLAG_A);
    assert_eq!(*a.a(), 1);
    a.a_mut().set(1);
    assert_eq!(a.flags(), FLAG_A);
}

#[test]
fn all_three_fields_then_drain_once() {
    let mut a = A::default();
    a.a_mut().set(0);
    assert_eq!(a.flags(), 0);
    a.a_mut().set(9);
    assert_eq!(a.flags(), FLAG_A);
    a.b_mut().force_set("text".to_string());
    a.c_mut().update(|c| {
        c.push(3);
        true
    });
    assert_eq!(a.flags(), ALL);
    assert_eq!(a.b(), "text");
    assert_eq!(a.c(), &vec![3]);
    assert_eq!(a.take_updates(), Some(ALL));
    assert_eq!(a.flags(), 0);
    assert_eq!(a.take_updates(), None);
    assert_eq!(a.take_updates(), None);
    assert_eq!(*a.a(), 9);
    assert_eq!(a.b(), "text");
    assert_eq!(a.c(), &vec![3]);
}

#[test]
fn drain_after_a_new_write_returns_only_the_new_flag() {
    let mut a = A::default();
    a.a_mut().force_set(1);
    a.b_mut().force_set("x".to_string());
    assert_eq!(a.take_updates(), Some(FLAG_A | FLAG_B));
    a.c_mut().force_set(vec![1, 2]);
    assert_eq!(a.take_updates(), Some(FLAG_C));
    assert_eq!(a.take_updates(), None);
}

#[test]
fn force_set_sets_the_flag_even_for_an_equal_value() {
    let mut flags: u8 = 0;
    let mut value: u32 = 5;
    TrackedField::new(4u8, &mut flags, &mut value).force_set(5);
    assert_eq!(value, 5);
    assert_eq!(flags, 4);
}

#[test]
fn force_set_keeps_the_other_flags() {
    let mut flags: u8 = 0b1010_0000;
    let mut value: u32 = 5;
    TrackedField::new(0b0000_0100u8, &mut flags, &mut value).force_set(6);
    assert_eq!(value, 6);
    assert_eq!(flags, 0b1010_0100);
}

#[test]
fn update_sets_the_flag_when_the_closure_says_so() {
    let mut flags: u16 = 0;
    let mut value: u32 = 5;
    let changed = TrackedField::new(0x100u16, &mut flags, &mut value).update(|v| {
        *v += 1;
        true
    });
    assert!(changed);
    assert_eq!(value, 6);
    assert_eq!(flags, 0x100);
}

#[test]
fn update_leaves_the_flags_when_the_closure_reports_no_change() {
    let mut flags: u16 = 0x0001;
    let mut value: u32 = 5;
    let changed = TrackedField::new(0x100u16, &mut flags, &mut value).update(|_| false);
    assert!(!changed);
    assert_eq!(value, 5);
    assert_eq!(flags, 0x0001);
}

#[test]
fn update_trusts_the_report_of_the_closure() {
    let mut flags: u16 = 0;
    let mut value: u32 = 5;
    let changed = TrackedField::new(0x100u16, &mut flags, &mut value).update(|v| {
        *v = 77;
        false
    });
    assert!(!changed);
    assert_eq!(value, 77);
    assert_eq!(flags, 0);
}

#[test]
fn force_update_always_sets_the_flag() {
    let mut flags: u32 = 0;
    let mut value: Vec<u8> = Vec::new();
    TrackedField::new(1u32 << 31, &mut flags, &mut value).force_update(|_| {});
    assert!(value.is_empty());
    assert_eq!(flags, 1 << 31);
    TrackedField::new(1u32, &mut flags, &mut value).force_update(|v| v.push(9));
    assert_eq!(value, vec![9]);
    assert_eq!(flags, (1 << 31) | 1);
}

#[test]
fn update_opt_replaces_and_sets_the_flag() {
    let mut flags: u64 = 0;
    let mut value: u8 = 9;
    let changed = TrackedField::new(1u64 << 40, &mut flags, &mut value)
        .update_opt(|v| v.checked_sub(5));
    assert!(changed);
    assert_eq!(value, 4);
    assert_eq!(flags, 1 << 40);
}

#[test]
fn update_opt_without_replacement_sets_no_flag() {
    let mut flags: u64 = 0;
    let mut value: u8 = 4;
    let changed = TrackedField::new(1u64 << 40, &mut flags, &mut value)
        .update_opt(|v| v.checked_sub(5));
    assert!(!changed);
    assert_eq!(value, 4);
    assert_eq!(flags, 0);
}

#[test]
fn reading_through_the_wrapper_sets_no_flag() {
    let mut flags: u128 = 0;
    let mut value: String = "abc".to_string();
    let field = TrackedField::new(1u128 << 127, &mut flags, &mut value);
    assert_eq!(field.len(), 3);
    assert_eq!(*field, "abc");
    drop(field);
    assert_eq!(flags, 0);
}

#[test]
fn writing_through_the_wrapper_sets_the_flag() {
    let mut flags: u128 = 0;
    let mut value: String = "abc".to_string();
    let mut field = TrackedField::new(1u128 << 127, &mut flags, &mut value);
    field.push('d');
    drop(field);
    assert_eq!(value, "abcd");
    assert_eq!(flags, 1 << 127);
}

#[test]
fn taking_the_mutable_path_alone_sets_the_flag() {
    let mut flags: u8 = 0;
    let mut value: u32 = 1;
    let mut field = TrackedField::new(8u8, &mut flags, &mut value);
    let _unused: &mut u32 = &mut field;
    drop(field);
    assert_eq!(value, 1);
    assert_eq!(flags, 8);
}

#[test]
fn compound_increment_adds_and_sets_the_flag() {
    let mut flags: u8 = 0;
    let mut value: u32 = 40;
    let mut field = TrackedField::new(2u8, &mut flags, &mut value);
    field += 2;
    drop(field);
    assert_eq!(value, 42);
    assert_eq!(flags, 2);
}

#[test]
fn compound_increment_by_nothing_still_sets_the_flag() {
    let mut a = A::default();
    {
        let mut w = a.a_mut();
        w += 0;
    }
    assert_eq!(*a.a(), 0);
    assert_eq!(a.flags(), FLAG_A);
}

#[test]
fn wrapper_can_be_printed() {
    let mut flags: u8 = 1;
    let mut value: u32 = 7;
    let field = TrackedField::new(2u8, &mut flags, &mut value);
    let text = format!("{:?}", field);
    assert!(text.contains("TrackedField"));
    assert!(text.contains("7"));
}

#[test]
fn flag_storage_of_every_width() {
    assert!(<u8 as Flags>::empty().is_empty());
    assert!(<u16 as Flags>::empty().is_empty());
    assert!(<u32 as Flags>::empty().is_empty());
    assert!(<u64 as Flags>::empty().is_empty());
    assert!(<u128 as Flags>::empty().is_empty());
    assert_eq!(<u8 as Flags>::empty(), 0);
    assert_eq!(<u128 as Flags>::empty(), 0);

    let mut a: u8 = 0b0101;
    a.insert(0b0110);
    assert_eq!(a, 0b0111);
    assert!(!Flags::is_empty(&a));

    let mut b: u16 = 0x00f0;
    b.insert(0x0f00);
    assert_eq!(b, 0x0ff0);

    let mut c: u32 = 1;
    c.insert(1 << 31);
    assert_eq!(c, 0x8000_0001);

    let mut d: u64 = 0;
    d.insert(1 << 63);
    assert_eq!(d, 1 << 63);
    d.insert(1 << 63);
    assert_eq!(d, 1 << 63);

    let mut e: u128 = 1 << 127;
    e.insert(1);
    assert_eq!(e, (1 << 127) | 1);
}

/// A flags type as the generated code declares it: the storage in a struct
/// of its own, the bit operations taken from `bitflags`, and the impl of
/// this crate's `Flags` as the generated code words it.
#[derive(Debug, Clone, Copy, PartialEq, Eq, Default)]
struct Bits8(u8);

impl trackr::__reexport::Flags for Bits8 {
    const FLAGS: &'static [bitflags::Flag<Self>] = &[];

    type Bits = u8;

    fn bits(&self) -> u8 {
        self.0
    }

    fn from_bits_retain(bits: u8) -> Self {
        Bits8(bits)
    }
}

impl trackr::Flags for Bits8 {
    fn empty() -> Self {
        <Self as trackr::__reexport::Flags>::empty()
    }

    fn is_empty(&self) -> bool {
        trackr::__reexport::Flags::is_empty(self)
    }

    fn insert(&mut self, other: Self) {
        trackr::__reexport::Flags::insert(self, other)
    }
}

#[test]
fn flag_storage_agrees_with_bitflags() {
    assert_eq!(<Bits8 as bitflags::Flags>::empty().0, <u8 as Flags>::empty());
    for a in 0..=255u8 {
        assert_eq!(
            bitflags::Flags::is_empty(&Bits8(a)),
            Flags::is_empty(&a)
        );
        for b in 0..=255u8 {
            let mut theirs = Bits8(a);
            bitflags::Flags::insert(&mut theirs, Bits8(b));
            let mut ours = a;
            Flags::insert(&mut ours, b);
            assert_eq!(theirs.0, ours);
            assert!(bitflags::Flags::contains(&theirs, Bits8(b)));
        }
    }
}
