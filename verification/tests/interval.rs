use gap_buffer::interval::Interval;

#[test]
fn lib_test() {
    assert!(Interval { lower: 10, upper: 20 } < Interval { lower: 20, upper: 40 });
    assert!(Interval { lower: 7, upper: 8 } >= Interval { lower: 0, upper: 1 });
    assert!(Interval { lower: 7, upper: 8 } <= Interval { lower: 7, upper: 8 });
    assert!(Interval { lower: 7, upper: 8 }.le(&Interval { lower: 7, upper: 8 }));

    // Overlapping intervals aren't ordered with respect to each other.
    let left = Interval { lower: 10, upper: 30 };
    let right = Interval { lower: 20, upper: 40 };
    assert!(!(left < right));
    assert!(!(left >= right));
}
