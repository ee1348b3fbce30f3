use hash_of::HashOf;
use std::collections::hash_map::DefaultHasher;
use std::hash::Hasher;

#[test]
fn borrow_hash_eq() {
    let x = HashOf::<String>::from("test");
    let s2 = String::new() + "test";
    let y = HashOf::from(&s2);
    assert_eq!(x, y);
}

#[test]
fn can_hash_non_borrow() {
    let x = HashOf::<u32>::from(&0);
    assert_ne!(x.to_inner(), 0);
}

#[test]
fn repeated_construction_is_deterministic() {
    let x = HashOf::<String>::from("determinism");
    let y = HashOf::<String>::from("determinism");
    assert_eq!(x, y);
    assert_eq!(x.to_inner(), y.to_inner());

    let a = HashOf::<u32>::from(&42u32);
    let b = HashOf::<u32>::from(&42u32);
    assert_eq!(a, b);
    assert_eq!(a.to_inner(), b.to_inner());
}

#[test]
fn empty_text_and_empty_string_agree() {
    let x = HashOf::<String>::from("");
    let y = HashOf::from(&String::new());
    assert_eq!(x, y);
    assert_eq!(x.to_inner(), y.to_inner());
}

#[test]
fn copies_are_independent_and_equal() {
    let x = HashOf::<u32>::from(&7u32);
    let y = x.clone();
    assert_eq!(y, x);
    let z = x;
    assert_eq!(z.to_inner(), y.to_inner());

    let s = HashOf::<String>::from("copy");
    let t = s.clone();
    assert_eq!(t, s);
    assert_eq!(t.to_inner(), s.to_inner());
}

#[test]
fn construction_feeds_the_value() {
    // An untouched hasher state finalizes to some digest; constructing over a
    // value must feed that value, so the result differs from the digest of
    // the empty write sequence.
    let empty = DefaultHasher::new();
    let empty_digest = empty.finish();
    let x = HashOf::<String>::from("fed");
    assert_ne!(x.to_inner(), empty_digest);
}

#[test]
fn different_inputs_give_different_digests() {
    // Not a law (collisions are possible in principle), but documents that
    // the input actually reaches the hasher.
    let x = HashOf::<String>::from("left");
    let y = HashOf::<String>::from("right");
    assert_ne!(x, y);

    let a = HashOf::<u32>::from(&1u32);
    let b = HashOf::<u32>::from(&2u32);
    assert_ne!(a.to_inner(), b.to_inner());
}

#[test]
fn tagged_hash_is_hashable_downstream() {
    // The tagged value contributes its digest to a downstream hasher, so
    // equal tagged values contribute identically.
    let x = HashOf::<String>::from("downstream");
    let y = HashOf::<String>::from("downstream");
    let z = HashOf::<String>::from("elsewhere");
    let mut h1 = DefaultHasher::new();
    let mut h2 = DefaultHasher::new();
    let mut h3 = DefaultHasher::new();
    std::hash::Hash::hash(&x, &mut h1);
    std::hash::Hash::hash(&y, &mut h2);
    std::hash::Hash::hash(&z, &mut h3);
    assert_eq!(h1.finish(), h2.finish());
    // Would not hold if the tagged value contributed nothing to the state.
    assert_ne!(h1.finish(), h3.finish());
}
