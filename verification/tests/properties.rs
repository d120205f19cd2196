//! The stated properties of the concatenation engine on concrete values:
//! length, order, the empty and identity cases, and concatenation of
//! non-duplicable elements with every element consumed exactly once.

use core::cell::Cell;
use core::marker::PhantomData;
use core::mem::ManuallyDrop;

use arrcat::internals::{concat_arrays, ArrayLength, GetTypeParam, TypeParam, Usize};

#[test]
fn concat_length_is_sum_of_part_lengths() {
    let out = concat_arrays(vec![vec![1u8], vec![2, 3, 4], vec![5, 6, 7, 8, 9]]);
    assert_eq!(out.len(), 1 + 3 + 5);
    assert_eq!(out, vec![1, 2, 3, 4, 5, 6, 7, 8, 9]);
}

#[test]
fn concat_keeps_argument_order() {
    let out = concat_arrays(vec![vec![9u32, 9], vec![1, 1], vec![9, 1]]);
    assert_eq!(out, vec![9, 9, 1, 1, 9, 1]);
}

#[test]
fn concat_of_nothing_is_empty() {
    let out: Vec<u64> = concat_arrays(Vec::new());
    assert!(out.is_empty());
}

#[test]
fn concat_of_one_argument_is_identity() {
    let out = concat_arrays(vec![vec![5i32, -7, 11]]);
    assert_eq!(out, vec![5, -7, 11]);
}

#[test]
fn concat_pair_literal() {
    let out = concat_arrays(vec![vec![3u16, 4, 64], vec![7, 11, 13, 17]]);
    assert_eq!(out, vec![3, 4, 64, 7, 11, 13, 17]);
    assert_eq!(out.len(), 7);
}

fn squares_of(base: [u16; 3]) -> Vec<u16> {
    let mut v = Vec::new();
    for x in base {
        v.push(x * 9);
    }
    v
}

#[test]
fn concat_runtime_and_computed() {
    let runtime = [8u16, 9, 10];
    let computed = squares_of([2, 3, 4]);
    assert_eq!(computed, vec![18, 27, 36]);
    let out = concat_arrays(vec![Vec::from(runtime), computed]);
    assert_eq!(out, vec![8, 9, 10, 18, 27, 36]);
}

/// An element that cannot be duplicated implicitly: it runs cleanup on drop,
/// ticking the shared counter, so a stray copy would be seen as an extra tick.
struct Counted<'a> {
    value: u32,
    drops: &'a Cell<u32>,
}

impl Drop for Counted<'_> {
    fn drop(&mut self) {
        self.drops.set(self.drops.get() + 1);
    }
}

#[test]
fn concat_moves_each_element_once() {
    let drops = Cell::new(0);
    let make = |value: u32| Counted {
        value,
        drops: &drops,
    };
    let out = concat_arrays(vec![
        vec![make(3), make(4)],
        Vec::new(),
        vec![make(7), make(11), make(13)],
    ]);
    let values: Vec<u32> = out.iter().map(|c| c.value).collect();
    assert_eq!(values, vec![3, 4, 7, 11, 13]);
    assert_eq!(drops.get(), 0);
    drop(out);
    assert_eq!(drops.get(), 5);
}

#[test]
fn counter_resolves_to_array_length() {
    let len: Usize<4> = Usize;
    if false {
        len.infer_mda(&ManuallyDrop::new([0u8, 1, 2, 3]));
    }
    assert_eq!(len.get(), 4);

    let five: Usize<5> = Usize;
    assert_eq!(five.get(), 5);
}

#[test]
fn length_capability_reads_type_level_length() {
    assert_eq!(<[u64; 0] as ArrayLength>::LENGTH, 0);
    assert_eq!(<[u64; 9] as ArrayLength>::LENGTH, 9);
    assert_eq!(<[Option<String>; 3] as ArrayLength>::LENGTH, 3);
}

#[test]
fn type_param_witness_pairs_array_with_element() {
    let witness: TypeParam<[u16; 6], u16> = <[u16; 6] as GetTypeParam>::type_param();
    witness.assert_type_param(PhantomData::<u16>);
    let again = witness.clone();
    again.assert_type_param(PhantomData::<u16>);
}
