use gap_buffer::complex::Complex;

#[test]
fn try_it_out() {
    let mut z = Complex { re: 1, im: 2 };
    let c = Complex { re: 3, im: 4 };

    z = z * z + c;

    std::mem::forget(z);
}

#[test]
fn test_complex_eq() {
    let x = Complex { re: 5, im: 2 };
    let y = Complex { re: 2, im: 5 };
    assert_eq!(x * y, Complex { re: 0, im: 29 });
}

#[test]
fn negation_flips_both_portions() {
    let z = Complex { re: 3, im: -4 };
    assert_eq!(-z, Complex { re: -3, im: 4 });
}

#[test]
fn subtraction_is_componentwise() {
    let a = Complex { re: 7, im: 1 };
    let b = Complex { re: 2, im: 6 };
    assert_eq!(a - b, Complex { re: 5, im: -5 });
}
