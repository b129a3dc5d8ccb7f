//! Element-wise comparisons over arrays and vectors of values.

use numtest::{Compare, Float32, Float64};

fn arrays_equal64(arr1: &[f64], arr2: &[f64]) -> bool {
    arr1.len() == arr2.len()
        && arr1.iter().zip(arr2.iter()).all(|(a, b)| {
            Float64::from_bits(a.to_bits()).is_equal(Float64::from_bits(b.to_bits()))
        })
}

fn arrays_equal_to_decimal64(arr1: &[f64], arr2: &[f64], decimal: i32) -> bool {
    arr1.len() == arr2.len()
        && arr1.iter().zip(arr2.iter()).all(|(a, b)| {
            Float64::from_bits(a.to_bits())
                .is_equal_to_decimal(Float64::from_bits(b.to_bits()), decimal)
                .0
        })
}

fn arrays_equal_to_atol64(arr1: &[f64], arr2: &[f64], atol: f64) -> bool {
    arr1.len() == arr2.len()
        && arr1.iter().zip(arr2.iter()).all(|(a, b)| {
            Float64::from_bits(a.to_bits())
                .is_equal_to_atol(Float64::from_bits(b.to_bits()), Float64::from_bits(atol.to_bits()))
                .0
        })
}

fn arrays_equal_to_rtol64(arr1: &[f64], arr2: &[f64], rtol: f64) -> bool {
    arr1.len() == arr2.len()
        && arr1.iter().zip(arr2.iter()).all(|(a, b)| {
            Float64::from_bits(a.to_bits())
                .is_equal_to_rtol(Float64::from_bits(b.to_bits()), Float64::from_bits(rtol.to_bits()))
                .0
        })
}

fn arrays_equal_to_atol32(arr1: &[f32], arr2: &[f32], atol: f32) -> bool {
    arr1.len() == arr2.len()
        && arr1.iter().zip(arr2.iter()).all(|(a, b)| {
            Float32::from_bits(a.to_bits())
                .is_equal_to_atol(Float32::from_bits(b.to_bits()), Float32::from_bits(atol.to_bits()))
                .0
        })
}

fn arrays_equal_to_rtol32(arr1: &[f32], arr2: &[f32], rtol: f32) -> bool {
    arr1.len() == arr2.len()
        && arr1.iter().zip(arr2.iter()).all(|(a, b)| {
            Float32::from_bits(a.to_bits())
                .is_equal_to_rtol(Float32::from_bits(b.to_bits()), Float32::from_bits(rtol.to_bits()))
                .0
        })
}

#[test]
fn test_std_array_exact_pass() {
    let arr1: [f64; 3] = [1.1, 2.2, 3.3];
    let arr2: [f64; 3] = [1.1, 2.2, 3.3];
    assert!(arrays_equal64(&arr1, &arr2));
}

#[test]
fn test_std_vec_exact_pass() {
    let vec1 = Vec::from([1.1, 2.2, 3.3]);
    let vec2 = Vec::from([1.1, 2.2, 3.3]);
    assert!(arrays_equal64(&vec1, &vec2));
}

#[test]
fn test_std_array_decimal_pass() {
    let arr1: [f64; 3] = [1.1, 2.2, 3.3];
    let arr2: [f64; 3] = [1.11, 2.22, 3.33];
    assert!(arrays_equal_to_decimal64(&arr1, &arr2, 1));
}

#[test]
fn test_std_vec_decimal_pass() {
    let vec1 = Vec::from([1.1, 2.2, 3.3]);
    let vec2 = Vec::from([1.1, 2.22, 3.33]);
    assert!(arrays_equal_to_decimal64(&vec1, &vec2, 1));
}

#[test]
fn test_std_array_atol_pass() {
    let arr1: [f64; 3] = [1.1, 2.2, 3.3];
    let arr2: [f64; 3] = [1.11, 2.22, 3.33];
    assert!(arrays_equal_to_atol64(&arr1, &arr2, 0.1));
}

#[test]
fn test_std_vec_atol_pass() {
    let vec1 = Vec::from([1.1, 2.2, 3.3]);
    let vec2 = Vec::from([1.1, 2.22, 3.33]);
    assert!(arrays_equal_to_atol64(&vec1, &vec2, 0.1));
}

#[test]
fn test_std_array_rtol_pass() {
    let arr1: [f64; 3] = [1.1, 2.2, 3.3];
    let arr2: [f64; 3] = [1.11, 2.22, 3.33];
    assert!(arrays_equal_to_rtol64(&arr1, &arr2, 0.1));
}

#[test]
fn test_std_vec_rtol_pass() {
    let vec1 = Vec::from([1.1, 2.2, 3.3]);
    let vec2 = Vec::from([1.1, 2.22, 3.33]);
    assert!(arrays_equal_to_rtol64(&vec1, &vec2, 0.1));
}

#[test]
fn test_std_array_atol_fail_detected() {
    let arr1: [f32; 3] = [1.1, 2.2, 3.3];
    let arr2: [f32; 3] = [1.1, 2.22, 3.33];
    assert!(!arrays_equal_to_atol32(&arr1, &arr2, 0.01));
}

#[test]
fn test_std_array_rtol_fail_detected() {
    let arr1: [f32; 3] = [1.1, 2.2, 3.3];
    let arr2: [f32; 3] = [1.1, 2.22, 3.33];
    assert!(!arrays_equal_to_rtol32(&arr1, &arr2, 0.001));
}

#[test]
fn test_length_mismatch_detected() {
    let arr1: [f64; 3] = [1.1, 2.2, 3.3];
    let arr2: [f64; 2] = [1.1, 2.2];
    assert!(!arrays_equal64(&arr1, &arr2));
}
