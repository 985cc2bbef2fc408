//! Tests of `AtomicTaggedPtr` and of the conversions between the pointer forms.

use core::cmp::Ordering as CmpOrdering;
use core::sync::atomic::Ordering;

use atomic_tagged_ptr::{AtomicTaggedPtr, Ptr, Tag, TaggedPtr, TAG_MASK};

/// The address of a value, as a pointer to it holds it.
fn addr_of<T>(r: &T) -> u64 {
    core::ptr::from_ref(r).addr() as u64
}

fn check_default_initializer() {
    let atom: AtomicTaggedPtr<i32> = Default::default();
    let loaded = atom.load(Ordering::Relaxed);
    assert!(loaded.ptr.is_none());
    assert_eq!(loaded.tag, Tag::new(0));
}

#[test]
fn impl_test_default_initializer() {
    check_default_initializer();
}

#[test]
fn tests_test_default_initializer() {
    check_default_initializer();
}

fn check_debug_formatter() {
    let val = 12345;
    let ptr = Ptr::<i32>::new(Some(addr_of(&val)));
    let atom = AtomicTaggedPtr::new(TaggedPtr::new(ptr, Tag::new(0)));
    atom.store(TaggedPtr::new(ptr, Tag::new(88)), Ordering::Relaxed);

    let debug_str = atom.debug_string();
    assert!(debug_str.contains("AtomicTaggedPtr"));
    assert!(debug_str.contains("tag: Tag(0x58)"));
}

#[test]
fn impl_test_debug_formatter() {
    check_debug_formatter();
}

#[test]
fn tests_test_debug_formatter() {
    check_debug_formatter();
}

#[test]
fn test_into_option_non_null_api() {
    let val1 = 111;
    let raw_ptr1 = addr_of(&val1);
    let mut_ptr1 = addr_of(&val1);
    let non_null1 = raw_ptr1;

    // 1. new
    let atom = AtomicTaggedPtr::new(TaggedPtr::new(Ptr::<i32>::from(non_null1), Tag::new(0)));
    assert_eq!(atom.load(Ordering::Relaxed).ptr.option(), Some(non_null1));

    let atom = AtomicTaggedPtr::new(TaggedPtr::new(Ptr::<i32>::new(Some(non_null1)), Tag::new(0)));
    assert_eq!(atom.load(Ordering::Relaxed).ptr.option(), Some(non_null1));

    let atom = AtomicTaggedPtr::new(TaggedPtr::new(Ptr::<i32>::from(raw_ptr1), Tag::new(0)));
    assert_eq!(atom.load(Ordering::Relaxed).ptr.option(), Some(non_null1));

    let atom = AtomicTaggedPtr::new(TaggedPtr::new(Ptr::<i32>::from(mut_ptr1), Tag::new(0)));
    assert_eq!(atom.load(Ordering::Relaxed).ptr.option(), Some(non_null1));

    let atom = AtomicTaggedPtr::new(TaggedPtr::new(Ptr::<i32>::from(0u64), Tag::new(0)));
    assert_eq!(atom.load(Ordering::Relaxed).ptr.option(), None);

    let atom = AtomicTaggedPtr::new(TaggedPtr::new(Ptr::<i32>::from(0u64), Tag::new(0)));
    assert_eq!(atom.load(Ordering::Relaxed).ptr.option(), None);

    let atom: AtomicTaggedPtr<i32> = AtomicTaggedPtr::new(TaggedPtr::new(Ptr::new(None), Tag::new(0)));
    assert_eq!(atom.load(Ordering::Relaxed).ptr.option(), None);

    // 2. store
    let atom = AtomicTaggedPtr::<i32>::new(TaggedPtr::null());
    atom.store(TaggedPtr::new(Ptr::from(raw_ptr1), Tag::new(10)), Ordering::Relaxed);
    let loaded = atom.load(Ordering::Relaxed);
    assert_eq!(loaded.ptr.option(), Some(non_null1));
    assert_eq!(loaded.tag, Tag::new(10));

    atom.store(TaggedPtr::new(Ptr::null(), Tag::new(20)), Ordering::Relaxed);
    let loaded = atom.load(Ordering::Relaxed);
    assert_eq!(loaded.ptr.option(), None);
    assert_eq!(loaded.tag, Tag::new(20));

    // 3. compare_exchange / compare_exchange_weak
    let atom = AtomicTaggedPtr::new(TaggedPtr::new(Ptr::<i32>::from(raw_ptr1), Tag::new(0)));
    let res = atom.compare_exchange(
        TaggedPtr::new(Ptr::from(raw_ptr1), Tag::new(0)),
        TaggedPtr::new(Ptr::from(mut_ptr1), Tag::new(1)),
        Ordering::SeqCst,
        Ordering::SeqCst,
    );
    assert!(res.is_ok());
    let loaded = atom.load(Ordering::Relaxed);
    assert_eq!(loaded.ptr.option(), Some(non_null1));
    assert_eq!(loaded.tag, Tag::new(1));

    let mut res = atom.compare_exchange_weak(
        TaggedPtr::new(Ptr::from(mut_ptr1), Tag::new(1)),
        TaggedPtr::new(Ptr::null(), Tag::new(2)),
        Ordering::SeqCst,
        Ordering::SeqCst,
    );
    while res.is_err() {
        res = atom.compare_exchange_weak(
            TaggedPtr::new(Ptr::from(mut_ptr1), Tag::new(1)),
            TaggedPtr::new(Ptr::null(), Tag::new(2)),
            Ordering::SeqCst,
            Ordering::SeqCst,
        );
    }
    assert!(res.is_ok());
    let loaded = atom.load(Ordering::Relaxed);
    assert_eq!(loaded.ptr.option(), None);
    assert_eq!(loaded.tag, Tag::new(2));
}

#[test]
fn test_into_ptr_api() {
    let val1 = 111;
    let raw_ptr1 = addr_of(&val1);
    let mut_ptr1 = addr_of(&val1);
    let non_null1 = raw_ptr1;

    // 1. new
    let atom = AtomicTaggedPtr::new(TaggedPtr::new(Ptr::<i32>::from(non_null1), Tag::new(0)));
    assert_eq!(atom.load(Ordering::Relaxed).ptr.option(), Some(non_null1));

    let atom = AtomicTaggedPtr::new(TaggedPtr::new(Ptr::<i32>::new(Some(non_null1)), Tag::new(0)));
    assert_eq!(atom.load(Ordering::Relaxed).ptr.option(), Some(non_null1));

    let atom = AtomicTaggedPtr::new(TaggedPtr::new(Ptr::<i32>::from(raw_ptr1), Tag::new(0)));
    assert_eq!(atom.load(Ordering::Relaxed).ptr.option(), Some(non_null1));

    let atom = AtomicTaggedPtr::new(TaggedPtr::new(Ptr::<i32>::from(mut_ptr1), Tag::new(0)));
    assert_eq!(atom.load(Ordering::Relaxed).ptr.option(), Some(non_null1));

    let atom = AtomicTaggedPtr::new(TaggedPtr::new(Ptr::<i32>::from(0u64), Tag::new(0)));
    assert_eq!(atom.load(Ordering::Relaxed).ptr.option(), None);

    let atom = AtomicTaggedPtr::new(TaggedPtr::new(Ptr::<i32>::from(0u64), Tag::new(0)));
    assert_eq!(atom.load(Ordering::Relaxed).ptr.option(), None);

    let atom: AtomicTaggedPtr<i32> = AtomicTaggedPtr::new(TaggedPtr::new(Ptr::new(None), Tag::new(0)));
    assert_eq!(atom.load(Ordering::Relaxed).ptr.option(), None);

    // 2. store
    let atom = AtomicTaggedPtr::<i32>::default();
    atom.store(TaggedPtr::new(Ptr::from(raw_ptr1), Tag::new(10)), Ordering::Relaxed);
    let loaded = atom.load(Ordering::Relaxed);
    assert_eq!(loaded.ptr.option(), Some(non_null1));
    assert_eq!(loaded.tag, Tag::new(10));

    atom.store(TaggedPtr::new(Ptr::null(), Tag::new(20)), Ordering::Relaxed);
    let loaded = atom.load(Ordering::Relaxed);
    assert_eq!(loaded.ptr.option(), None);
    assert_eq!(loaded.tag, Tag::new(20));

    // 3. compare_exchange / compare_exchange_weak
    let atom = AtomicTaggedPtr::new(TaggedPtr::new(Ptr::<i32>::from(raw_ptr1), Tag::new(0)));
    let res = atom.compare_exchange(
        TaggedPtr::new(Ptr::from(raw_ptr1), Tag::new(0)),
        TaggedPtr::new(Ptr::from(mut_ptr1), Tag::new(1)),
        Ordering::SeqCst,
        Ordering::SeqCst,
    );
    assert!(res.is_ok());
    let loaded = atom.load(Ordering::Relaxed);
    assert_eq!(loaded.ptr.option(), Some(non_null1));
    assert_eq!(loaded.tag, Tag::new(1));

    let mut res = atom.compare_exchange_weak(
        TaggedPtr::new(Ptr::from(mut_ptr1), Tag::new(1)),
        TaggedPtr::new(Ptr::null(), Tag::new(2)),
        Ordering::SeqCst,
        Ordering::SeqCst,
    );
    while res.is_err() {
        res = atom.compare_exchange_weak(
            TaggedPtr::new(Ptr::from(mut_ptr1), Tag::new(1)),
            TaggedPtr::new(Ptr::null(), Tag::new(2)),
            Ordering::SeqCst,
            Ordering::SeqCst,
        );
    }
    assert!(res.is_ok());
    let loaded = atom.load(Ordering::Relaxed);
    assert_eq!(loaded.ptr.option(), None);
    assert_eq!(loaded.tag, Tag::new(2));

    // 4. From / Into conversions
    let ptr_from_nn = Ptr::<i32>::from(non_null1);
    assert_eq!(ptr_from_nn.option(), Some(non_null1));
    let ptr_from_opt: Ptr<i32> = Ptr::new(Some(non_null1));
    assert_eq!(ptr_from_opt.option(), Some(non_null1));
    let ptr_from_const = Ptr::<i32>::from(raw_ptr1);
    assert_eq!(ptr_from_const.option(), Some(non_null1));
    let ptr_from_mut = Ptr::<i32>::from(mut_ptr1);
    assert_eq!(ptr_from_mut.option(), Some(non_null1));

    let tagged = TaggedPtr::new(Ptr::<i32>::from(non_null1), Tag::new(123));
    let ptr_from_tagged = Ptr::from(tagged);
    assert_eq!(ptr_from_tagged.option(), Some(non_null1));

    let opt_from_ptr = Option::<u64>::from(ptr_from_nn);
    assert_eq!(opt_from_ptr, Some(non_null1));
    let opt_from_tagged = Option::<u64>::from(tagged);
    assert_eq!(opt_from_tagged, Some(non_null1));

    // 5. tuple -> TaggedPtr, and AtomicTaggedPtr taking what the tuples give
    let tag = Tag::new(456);
    let tagged_from_nn = TaggedPtr::<i32>::from((Ptr::from(non_null1), tag));
    assert_eq!(tagged_from_nn.ptr.option(), Some(non_null1));
    assert_eq!(tagged_from_nn.tag, tag);

    let tagged_from_opt = TaggedPtr::<i32>::from((Ptr::new(Some(non_null1)), tag));
    assert_eq!(tagged_from_opt.ptr.option(), Some(non_null1));
    assert_eq!(tagged_from_opt.tag, tag);

    let tagged_from_const = TaggedPtr::<i32>::from((raw_ptr1, tag));
    assert_eq!(tagged_from_const.ptr.option(), Some(non_null1));
    assert_eq!(tagged_from_const.tag, tag);

    let tagged_from_mut = TaggedPtr::<i32>::from((mut_ptr1, tag));
    assert_eq!(tagged_from_mut.ptr.option(), Some(non_null1));
    assert_eq!(tagged_from_mut.tag, tag);

    let atom = AtomicTaggedPtr::new(TaggedPtr::<i32>::from((non_null1, tag)));
    assert_eq!(atom.load(Ordering::Relaxed).ptr.option(), Some(non_null1));

    atom.store(TaggedPtr::from((0u64, Tag::new(789))), Ordering::Relaxed);
    assert_eq!(atom.load(Ordering::Relaxed).ptr.option(), None);
    assert_eq!(atom.load(Ordering::Relaxed).tag, Tag::new(789));

    let res = atom.compare_exchange(
        TaggedPtr::from((0u64, Tag::new(789))),
        TaggedPtr::from((mut_ptr1, Tag::new(999))),
        Ordering::Relaxed,
        Ordering::Relaxed,
    );
    assert!(res.is_ok());
    assert_eq!(atom.load(Ordering::Relaxed).ptr.option(), Some(non_null1));
    assert_eq!(atom.load(Ordering::Relaxed).tag, Tag::new(999));
}

#[test]
fn test_new_traits_and_methods() {
    let val = 42;
    let non_null = addr_of(&val);
    let ptr_some = Ptr::<i32>::new(Some(non_null));
    let ptr_none = Ptr::<i32>::new(None);

    // 2. Ptr::expect / unwrap / unwrap_or
    assert_eq!(ptr_some.expect("should be valid"), non_null);
    assert_eq!(ptr_some.unwrap(), non_null);
    let other_val = 99;
    let other_nn = addr_of(&other_val);
    assert_eq!(ptr_none.unwrap_or(other_nn), other_nn);

    // 3. Ptr::map / map_or / map_or_else
    let mapped = ptr_some.map(|p| p);
    assert_eq!(mapped, ptr_some);
    assert_eq!(ptr_some.map_or(0, |p| p), non_null);
    assert_eq!(ptr_none.map_or(0, |p| p), 0);
    assert_eq!(ptr_some.map_or_else(|| 0, |p| p), non_null);
    assert_eq!(ptr_none.map_or_else(|| 0, |p| p), 0);

    // 4. Ptr pointer text / Ord
    let format_str = ptr_some.pointer_string();
    assert!(!format_str.is_empty());
    assert!(ptr_some > ptr_none || ptr_some < ptr_none || ptr_some == ptr_none);
    assert_eq!(ptr_some.cmp(&ptr_some), CmpOrdering::Equal);

    // 5. Ptr conversions
    let raw_const: u64 = ptr_some.into();
    assert_eq!(raw_const, non_null);
    let raw_mut: u64 = ptr_some.into();
    assert_eq!(raw_mut, non_null);
    let opt_const: Option<u64> = ptr_some.into();
    assert_eq!(opt_const, Some(non_null));
    let opt_mut: Option<u64> = ptr_none.into();
    assert_eq!(opt_mut, None);

    // 6. TaggedPtr methods & traits
    let tag = Tag::new(10);
    let tagged = TaggedPtr::new(ptr_some, tag);
    assert_eq!(tagged.as_ptr(), raw_const);
    assert_eq!(tagged.as_mut_ptr(), raw_mut);
    assert!(tagged.is_some());
    assert!(!tagged.is_null());
    assert!(!tagged.is_none());

    let tagged_with_ptr = tagged.with_ptr(ptr_none);
    assert!(tagged_with_ptr.is_none());
    assert_eq!(tagged_with_ptr.tag, tag);

    let tagged_with_tag = tagged.with_tag(Tag::new(20));
    assert_eq!(tagged_with_tag.tag.value(), 20);

    let mapped_tagged = tagged.map_ptr(|p| p);
    assert_eq!(mapped_tagged, tagged);

    let format_tagged = tagged.pointer_string();
    assert!(!format_tagged.is_empty());
    assert_eq!(tagged.cmp(&tagged), CmpOrdering::Equal);
    let raw_const_tagged: u64 = tagged.into();
    assert_eq!(raw_const_tagged, raw_const);
    let raw_mut_tagged: u64 = tagged.into();
    assert_eq!(raw_mut_tagged, raw_mut);

    assert_eq!(tagged, TaggedPtr::new(ptr_some, tag));
    let mut hasher = std::collections::hash_map::DefaultHasher::new();
    core::hash::Hash::hash(&tagged, &mut hasher);
    assert!(core::hash::Hasher::finish(&hasher) > 0);

    // 7. Tag arithmetic & methods
    let tag1 = Tag::new(5);
    assert_eq!(tag1.wrapping_sub(2).value(), 3);
    assert_eq!(tag1.next().value(), 6);
    assert_eq!((tag1 + 2).value(), 7);
    assert_eq!((tag1 - 2).value(), 3);
    let mut mut_tag = tag1;
    mut_tag += 2;
    assert_eq!(mut_tag.value(), 7);
    mut_tag -= 2;
    assert_eq!(mut_tag.value(), 5);

    // 8. AtomicTaggedPtr swap / into_inner / fetch_update
    let atom = AtomicTaggedPtr::new(tagged);
    let old = atom.swap(TaggedPtr::new(ptr_none, Tag::new(99)), Ordering::SeqCst);
    assert_eq!(old, tagged);
    assert_eq!(atom.load(Ordering::SeqCst).tag.value(), 99);

    let inner_val = atom.into_inner();
    assert!(inner_val.ptr.is_none());
    assert_eq!(inner_val.tag.value(), 99);

    let atom2 = AtomicTaggedPtr::new(tagged);
    let res = atom2.fetch_update(Ordering::SeqCst, Ordering::SeqCst, |t| Some(t.with_tag(t.tag + 1)));
    assert!(res.is_ok());
    assert_eq!(atom2.load(Ordering::SeqCst).tag.value(), tag.value() + 1);

    let atom3 = AtomicTaggedPtr::new(TaggedPtr::from((ptr_some, tag)));
    assert_eq!(atom3.load(Ordering::SeqCst).tag.value(), tag.value());
}

#[test]
fn test_new_features_comprehensive() {
    // 1. Ptr::null / none / cast
    let p_null: Ptr<i32> = Ptr::null();
    assert!(p_null.is_null());
    let p_none: Ptr<i32> = Ptr::none();
    assert!(p_none.is_null());

    let val = 42u32;
    let ptr = Ptr::<u32>::new(Some(addr_of(&val)));
    let casted: Ptr<i32> = ptr.cast();
    assert!(!casted.is_null());
    assert_eq!(casted.as_ptr(), ptr.as_ptr());

    // 2. Pointer arithmetic on Ptr
    let data = [10, 20, 30];
    let p0 = Ptr::<i32>::new(Some(addr_of(&data[0])));
    let p1 = Ptr::<i32>::new(Some(addr_of(&data[1])));

    let p_wrap_add = p0.wrapping_add(1);
    assert_eq!(p_wrap_add.as_ptr(), p1.as_ptr());
    let p_wrap_sub = p1.wrapping_sub(1);
    assert_eq!(p_wrap_sub.as_ptr(), p0.as_ptr());
    let p_wrap_offset = p0.wrapping_offset(1);
    assert_eq!(p_wrap_offset.as_ptr(), p1.as_ptr());

    let p_add = p0.add(1);
    assert_eq!(p_add.as_ptr(), p1.as_ptr());
    let p_sub = p1.sub(1);
    assert_eq!(p_sub.as_ptr(), p0.as_ptr());
    let p_offset = p0.offset(1);
    assert_eq!(p_offset.as_ptr(), p1.as_ptr());

    // 3. AsRef
    let opt_nn = Some(addr_of(&val));
    let ptr_as_ref = Ptr::<u32>::new(opt_nn);
    let tagged_as_ref = TaggedPtr::new(ptr_as_ref, Tag::new(123));
    assert_eq!(AsRef::<Ptr<u32>>::as_ref(&tagged_as_ref), &ptr_as_ref);
    assert_eq!(AsRef::<Tag>::as_ref(&tagged_as_ref), &Tag::new(123));

    // 4. TaggedPtr::null / cast
    let tp_null: TaggedPtr<i32> = TaggedPtr::null();
    assert!(tp_null.is_null());
    assert_eq!(tp_null.tag.value(), 0);

    let tp_cast: TaggedPtr<i32> = tagged_as_ref.cast();
    assert!(!tp_cast.is_null());
    assert_eq!(tp_cast.tag.value(), 123);

    // 5. TaggedPtr pointer arithmetic keeps the tag
    let data_tp = [100, 200];
    let tp0 = TaggedPtr::new(Ptr::<i32>::new(Some(addr_of(&data_tp[0]))), Tag::new(5));
    let tp1 = TaggedPtr::new(Ptr::<i32>::new(Some(addr_of(&data_tp[1]))), Tag::new(10));
    let tp_offset = tp0.offset(1);
    assert_eq!(tp_offset.as_ptr(), tp1.as_ptr());
    assert_eq!(tp_offset.tag.value(), 5);

    let tp_wrap_add = tp0.wrapping_add(1);
    assert_eq!(tp_wrap_add.as_ptr(), tp1.as_ptr());
    assert_eq!(tp_wrap_add.tag.value(), 5);

    // 6. Tag bitwise operations & From u8/u16/u32
    let t_u8 = Tag::from(5u8);
    let t_u16 = Tag::from(10u16);
    let t_u32 = Tag::from(15u32);
    assert_eq!(t_u8.value(), 5);
    assert_eq!(t_u16.value(), 10);
    assert_eq!(t_u32.value(), 15);

    let t1 = Tag::new(0b1100);
    let t2 = Tag::new(0b1010);
    assert_eq!((t1 & t2).value(), 0b1000);
    assert_eq!((t1 & 0b1010).value(), 0b1000);
    assert_eq!((t1 | t2).value(), 0b1110);
    assert_eq!((t1 | 0b1010).value(), 0b1110);
    assert_eq!((t1 ^ t2).value(), 0b0110);
    assert_eq!((t1 ^ 0b1010).value(), 0b0110);
    assert_eq!((!t1).value(), (!0b1100) & TAG_MASK);

    let mut t_mut = t1;
    t_mut &= t2;
    assert_eq!(t_mut.value(), 0b1000);
    t_mut = t1;
    t_mut &= 0b1010;
    assert_eq!(t_mut.value(), 0b1000);

    t_mut = t1;
    t_mut |= t2;
    assert_eq!(t_mut.value(), 0b1110);
    t_mut = t1;
    t_mut |= 0b1010;
    assert_eq!(t_mut.value(), 0b1110);

    t_mut = t1;
    t_mut ^= t2;
    assert_eq!(t_mut.value(), 0b0110);
    t_mut = t1;
    t_mut ^= 0b1010;
    assert_eq!(t_mut.value(), 0b0110);

    // 7. AtomicTaggedPtr fetch_* methods
    let atom = AtomicTaggedPtr::<i32>::new(TaggedPtr::new(Ptr::null(), Tag::new(10)));
    let old = atom.fetch_add_tag(5, Ordering::SeqCst);
    assert_eq!(old.tag.value(), 10);
    assert_eq!(atom.load(Ordering::SeqCst).tag.value(), 15);

    let old = atom.fetch_sub_tag(3, Ordering::SeqCst);
    assert_eq!(old.tag.value(), 15);
    assert_eq!(atom.load(Ordering::SeqCst).tag.value(), 12);

    let old = atom.fetch_and_tag(0b1100, Ordering::SeqCst);
    assert_eq!(old.tag.value(), 12);
    assert_eq!(atom.load(Ordering::SeqCst).tag.value(), 12);

    let old = atom.fetch_or_tag(0b0011, Ordering::SeqCst);
    assert_eq!(old.tag.value(), 12);
    assert_eq!(atom.load(Ordering::SeqCst).tag.value(), 15);

    let old = atom.fetch_xor_tag(0b1010, Ordering::SeqCst);
    assert_eq!(old.tag.value(), 15);
    assert_eq!(atom.load(Ordering::SeqCst).tag.value(), 5);

    let val_target = 999;
    let ptr_target = Some(addr_of(&val_target));
    let old = atom.fetch_set_ptr(Ptr::new(ptr_target), Ordering::SeqCst);
    assert!(old.ptr.is_null());
    assert_eq!(old.tag.value(), 5);
    let loaded = atom.load(Ordering::SeqCst);
    assert_eq!(loaded.ptr.option(), ptr_target);
    assert_eq!(loaded.tag.value(), 5);

    let old = atom.fetch_set_tag(Tag::new(88), Ordering::SeqCst);
    assert_eq!(old.ptr.option(), ptr_target);
    assert_eq!(old.tag.value(), 5);
    let loaded = atom.load(Ordering::SeqCst);
    assert_eq!(loaded.ptr.option(), ptr_target);
    assert_eq!(loaded.tag.value(), 88);

    // 8. AtomicTaggedPtr from the pointer forms, with the default tag
    let raw_c = addr_of(&val_target);
    let raw_m = addr_of(&val_target);
    let nn = raw_m;
    let ptr_wrap = Ptr::<i32>::new(Some(nn));

    let a1 = AtomicTaggedPtr::new(TaggedPtr::new(ptr_wrap, Tag::default()));
    assert_eq!(a1.load(Ordering::Relaxed).ptr.option(), Some(nn));
    assert_eq!(a1.load(Ordering::Relaxed).tag.value(), 0);

    let a2 = AtomicTaggedPtr::new(TaggedPtr::new(Ptr::<i32>::new(Some(nn)), Tag::default()));
    assert_eq!(a2.load(Ordering::Relaxed).ptr.option(), Some(nn));

    let a3 = AtomicTaggedPtr::new(TaggedPtr::new(Ptr::<i32>::from(nn), Tag::default()));
    assert_eq!(a3.load(Ordering::Relaxed).ptr.option(), Some(nn));

    let a4 = AtomicTaggedPtr::new(TaggedPtr::<i32>::from((raw_c, Tag::default())));
    assert_eq!(a4.load(Ordering::Relaxed).ptr.option(), Some(nn));

    let a5 = AtomicTaggedPtr::new(TaggedPtr::<i32>::from((raw_m, Tag::default())));
    assert_eq!(a5.load(Ordering::Relaxed).ptr.option(), Some(nn));
}
