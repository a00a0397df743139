use invaders::bite::Grapes;

#[test]
fn a_bite_from_a_hundred_leaves_ninety_nine() {
    let mut grapes = Grapes { total_left: 100 };
    grapes.bite();
    assert_eq!(grapes.total_left, 99);
}

#[test]
fn four_bites_from_a_hundred_leave_ninety_six() {
    let mut grapes = Grapes { total_left: 100 };
    grapes.bite();
    grapes.bite();
    grapes.bite();
    grapes.bite();
    assert_eq!(grapes.total_left, 96);
}

#[test]
fn a_bite_from_an_empty_bunch_leaves_minus_one() {
    let mut grapes = Grapes { total_left: 0 };
    grapes.bite();
    assert_eq!(grapes.total_left, -1);
}

#[test]
fn a_bite_from_one_leaves_none() {
    let mut grapes = Grapes { total_left: 1 };
    grapes.bite();
    assert_eq!(grapes.total_left, 0);
}

#[test]
fn the_last_bite_that_can_be_taken_reaches_the_least_count() {
    let mut grapes = Grapes { total_left: i32::MIN + 1 };
    grapes.bite();
    assert_eq!(grapes.total_left, i32::MIN);
    assert_eq!(grapes, Grapes { total_left: i32::MIN });
}
