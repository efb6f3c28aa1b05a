use std::cell::Cell;
use std::cell::RefCell;

use ffi_boundary::boundary::validate_buffer;
use ffi_boundary::boundary::validate_text_handle;
use ffi_boundary::boundary::BoundaryError;
use ffi_boundary::call_me_back;
use ffi_boundary::fill_array;
use ffi_boundary::get_double_from_python;
use ffi_boundary::mutate_numpy_array;
use ffi_boundary::square;
use ffi_boundary::sum_array;
use ffi_boundary::DOUBLE_FORTY_TWO_BITS;
use ffi_boundary::DOUBLE_TWO_BITS;
use ffi_boundary::FOREIGN_ALLOC_LEN;

#[test]
fn square_zero() {
    assert_eq!(square(0), 0);
}

#[test]
fn square_negative() {
    assert_eq!(square(-5), 25);
}

#[test]
fn square_extrema_wrap() {
    assert_eq!(square(i32::MAX), i32::MAX.wrapping_mul(i32::MAX));
    assert_eq!(square(i32::MAX), 1);
    assert_eq!(square(i32::MIN), i32::MIN.wrapping_mul(i32::MIN));
    assert_eq!(square(i32::MIN), 0);
    assert_eq!(square(46341), 46341i32.wrapping_mul(46341));
}

#[test]
fn sum_array_basic() {
    let v: Vec<u32> = vec![1, 2, 3, 4];
    assert_eq!(sum_array(&v), 10);
}

#[test]
fn sum_array_empty() {
    let v: Vec<u32> = vec![];
    assert_eq!(sum_array(&v), 0);
}

#[test]
fn sum_array_wraps_modulo() {
    let v: Vec<u32> = vec![u32::MAX, 2];
    assert_eq!(sum_array(&v), 1);
    let w: Vec<u32> = vec![u32::MAX, u32::MAX, u32::MAX];
    // 3 * (2^32 - 1) mod 2^32 == 2^32 - 3
    assert_eq!(sum_array(&w), u32::MAX - 2);
}

#[test]
fn double_constants_are_the_advertised_values() {
    assert_eq!(f64::from_bits(DOUBLE_TWO_BITS), 2.0);
    assert_eq!(f64::from_bits(DOUBLE_FORTY_TWO_BITS), 42.0);
}

#[test]
fn mutate_fills_every_element_with_two() {
    let mut buf: Vec<u64> = vec![0; 5];
    mutate_numpy_array(&mut buf);
    assert_eq!(buf.len(), 5);
    for b in &buf {
        assert_eq!(f64::from_bits(*b), 2.0);
    }
}

#[test]
fn mutate_empty_buffer_is_a_no_op() {
    let mut buf: Vec<u64> = vec![];
    mutate_numpy_array(&mut buf);
    assert_eq!(buf.len(), 0);
}

#[test]
fn validate_buffer_null_with_nonzero_len_faults() {
    assert_eq!(validate_buffer(true, 3), Err(BoundaryError::NullPointer));
}

#[test]
fn validate_buffer_null_with_zero_len_is_fine() {
    assert_eq!(validate_buffer(true, 0), Ok(()));
}

#[test]
fn validate_buffer_non_null_is_fine() {
    assert_eq!(validate_buffer(false, 3), Ok(()));
}

#[test]
fn validate_text_handle_null_faults() {
    assert_eq!(validate_text_handle(true), Err(BoundaryError::NullPointer));
}

#[test]
fn validate_text_handle_non_null_is_fine() {
    assert_eq!(validate_text_handle(false), Ok(()));
}

#[test]
fn call_me_back_invokes_with_forty_two() {
    let seen: Cell<i32> = Cell::new(0);
    let r = call_me_back(Some(|x: i32| seen.set(x)));
    assert_eq!(r, Ok(()));
    assert_eq!(seen.get(), 42);
}

#[test]
fn call_me_back_absent_callback_faults() {
    assert_eq!(call_me_back(None::<fn(i32)>), Err(BoundaryError::NullCallback));
}

#[test]
fn get_double_reads_back_pi() {
    let r = get_double_from_python(Some(|| 3.14f64.to_bits()));
    assert_eq!(r.map(f64::from_bits), Ok(3.14));
}

#[test]
fn get_double_absent_callback_faults() {
    assert_eq!(get_double_from_python(None::<fn() -> u64>), Err(BoundaryError::NullCallback));
}

#[test]
fn fill_array_fills_foreign_allocation_with_forty_two() {
    // Emulate the foreign side: the callback allocates the requested
    // number of elements and reports their (non-null) address.
    let backing: RefCell<Vec<f64>> = RefCell::new(Vec::new());
    let r = fill_array(Some(|n: usize| {
        backing.borrow_mut().resize(n, 0.0);
        true
    }));
    let values = r.expect("allocation was reported, so the fill must succeed");
    assert_eq!(values.len(), FOREIGN_ALLOC_LEN);
    {
        let mut buf = backing.borrow_mut();
        for (i, bits) in values.iter().enumerate() {
            buf[i] = f64::from_bits(*bits);
        }
    }
    let buf = backing.borrow();
    assert_eq!(buf.len(), 4);
    for x in buf.iter() {
        assert_eq!(*x, 42.0);
    }
}

#[test]
fn fill_array_absent_callback_faults() {
    assert_eq!(fill_array(None::<fn(usize) -> bool>), Err(BoundaryError::NullCallback));
}

#[test]
fn fill_array_null_report_faults() {
    let r = fill_array(Some(|_n: usize| false));
    assert_eq!(r, Err(BoundaryError::NullPointer));
}
