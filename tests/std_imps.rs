use std::collections::{HashMap, HashSet};
use std::fmt::Debug;
use std::ops::Deref;
use std::rc::Rc;
use std::sync::{Arc, Mutex};

use deep_clone::DeepClone;

// Checks that a deep_clone is equal to its source, and that deep_clone_from
// makes the receiver equal to the source while the addresses that `ptrs`
// reports for it stay the same.
fn test<T, F>(mut left: T, right: T, ptrs: F)
where
    T: DeepClone + PartialEq + Debug,
    F: Fn(&T) -> Vec<usize>,
{
    assert_eq!(right, right.deep_clone());
    let ptrs_left = ptrs(&left);
    left.deep_clone_from(&right);
    assert_eq!(left, right);
    assert_eq!(ptrs_left, ptrs(&left));
}

fn vec_ptr<T>(v: &Vec<T>) -> Vec<usize> {
    vec![v.as_ptr() as usize]
}

fn no_ptr<T>(_v: &T) -> Vec<usize> {
    Vec::new()
}

#[test]
fn vec() {
    test(vec![1u32, 2, 3], vec![0], vec_ptr);
    test(vec![], vec![1u32, 2, 3], no_ptr);
    test(vec![1u32, 2, 3], vec![1, 2, 3, 4, 5], no_ptr);
    test(Vec::<i32>::new(), vec![], vec_ptr);
}

#[test]
fn nums() {
    test(1, 2, no_ptr);
    test(7u8, 200u8, no_ptr);
    test(-5i64, i64::MAX, no_ptr);
    test(u128::MAX, 0u128, no_ptr);
}

#[derive(Debug)]
struct MutexEq<T>(Mutex<T>);

impl<T: PartialEq> PartialEq for MutexEq<T> {
    fn eq(&self, other: &Self) -> bool {
        let l = self.0.lock().unwrap();
        l.deref() == other.0.lock().unwrap().deref()
    }
}

impl<T: DeepClone> DeepClone for MutexEq<T> {
    fn deep_clone(&self) -> Self {
        MutexEq(self.0.deep_clone())
    }
    fn deep_clone_from(&mut self, other: &Self) {
        self.0.deep_clone_from(&other.0)
    }
}

fn mutex_ptr(v: &MutexEq<Vec<u32>>) -> Vec<usize> {
    let l = v.0.lock().unwrap();
    let mut r = vec_ptr(&l);
    r.push(std::ptr::from_ref::<Vec<u32>>(l.deref()) as usize);
    r
}

#[test]
fn mutex() {
    test(
        MutexEq(Mutex::new(vec![0u32, 1])),
        MutexEq(Mutex::new(vec![1, 1])),
        mutex_ptr,
    );
}
