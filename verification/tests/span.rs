use simpler_timer::Span;

#[test]
fn span_constructors_count_nanoseconds() {
    assert_eq!(Span::zero().as_nanos(), 0);
    assert_eq!(Span::from_nanos(7).as_nanos(), 7);
    assert_eq!(Span::from_millis(1).as_nanos(), 1_000_000);
    assert_eq!(Span::from_secs(2).as_nanos(), 2_000_000_000);
}

#[test]
fn span_as_millis_rounds_down() {
    assert_eq!(Span::from_nanos(1_999_999).as_millis(), 1);
    assert_eq!(Span::from_millis(250).as_millis(), 250);
    assert_eq!(Span::from_secs(1).as_millis(), 1000);
}

#[test]
fn span_is_zero() {
    assert!(Span::zero().is_zero());
    assert!(!Span::from_nanos(1).is_zero());
}

#[test]
fn span_equality_compares_lengths() {
    assert_eq!(Span::from_millis(1), Span::from_nanos(1_000_000));
    assert_ne!(Span::from_millis(1), Span::from_nanos(1_000_001));
}

#[test]
fn span_le_orders_lengths() {
    assert!(Span::from_millis(1).le(&Span::from_millis(2)));
    assert!(Span::from_millis(2).le(&Span::from_millis(2)));
    assert!(!Span::from_millis(3).le(&Span::from_millis(2)));
}

#[test]
fn span_checked_sub_refuses_underflow() {
    let a = Span::from_millis(50);
    let b = Span::from_millis(20);
    assert_eq!(a.checked_sub(&b), Some(Span::from_millis(30)));
    assert_eq!(a.checked_sub(&a), Some(Span::zero()));
    assert_eq!(b.checked_sub(&a), None);
}

#[test]
fn span_saturating_sub_clamps_at_zero() {
    let a = Span::from_millis(50);
    let b = Span::from_millis(20);
    assert_eq!(a.saturating_sub(&b), Span::from_millis(30));
    assert_eq!(a.saturating_sub(&a), Span::zero());
    assert_eq!(b.saturating_sub(&a), Span::zero());
}
