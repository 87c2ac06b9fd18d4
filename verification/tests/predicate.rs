use bevy_pigeon::predicate::CIdSpec;

#[test]
fn matches_all() {
    assert!(CIdSpec::All.matches(0));
    assert!(CIdSpec::All.matches(5));
    assert!(CIdSpec::All.matches(u32::MAX));
}

#[test]
fn matches_empty() {
    assert!(!CIdSpec::Empty.matches(0));
    assert!(!CIdSpec::Empty.matches(5));
}

#[test]
fn matches_only() {
    assert!(CIdSpec::Only(5).matches(5));
    assert!(!CIdSpec::Only(5).matches(4));
    assert!(!CIdSpec::Only(5).matches(0));
}

#[test]
fn matches_except() {
    assert!(!CIdSpec::Except(5).matches(5));
    assert!(CIdSpec::Except(5).matches(4));
    assert!(CIdSpec::Except(5).matches(0));
}

#[test]
fn overlaps_with_empty() {
    assert!(!CIdSpec::Empty.overlaps(CIdSpec::All));
    assert!(!CIdSpec::All.overlaps(CIdSpec::Empty));
    assert!(!CIdSpec::Empty.overlaps(CIdSpec::Empty));
    assert!(!CIdSpec::Only(3).overlaps(CIdSpec::Empty));
}

#[test]
fn overlaps_with_all() {
    assert!(CIdSpec::All.overlaps(CIdSpec::All));
    assert!(CIdSpec::All.overlaps(CIdSpec::Only(5)));
    assert!(CIdSpec::All.overlaps(CIdSpec::Except(5)));
    assert!(CIdSpec::Except(0).overlaps(CIdSpec::All));
}

#[test]
fn overlaps_only_pairs() {
    assert!(CIdSpec::Only(5).overlaps(CIdSpec::Only(5)));
    assert!(!CIdSpec::Only(5).overlaps(CIdSpec::Only(6)));
}

#[test]
fn overlaps_only_except_pairs() {
    assert!(!CIdSpec::Only(5).overlaps(CIdSpec::Except(5)));
    assert!(!CIdSpec::Except(5).overlaps(CIdSpec::Only(5)));
    assert!(CIdSpec::Only(4).overlaps(CIdSpec::Except(5)));
    assert!(CIdSpec::Except(5).overlaps(CIdSpec::Only(4)));
}

#[test]
fn overlaps_except_pairs() {
    assert!(CIdSpec::Except(0).overlaps(CIdSpec::Except(0)));
    assert!(CIdSpec::Except(0).overlaps(CIdSpec::Except(1)));
    assert!(CIdSpec::Except(u32::MAX).overlaps(CIdSpec::Except(0)));
}
