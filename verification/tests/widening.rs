use csv_schema::lattice::{observe, resolve, ColumnType};

const ALL: [ColumnType; 4] =
    [ColumnType::Boolean, ColumnType::Integer, ColumnType::Float, ColumnType::Text];

#[test]
fn widen_takes_the_wider_of_two() {
    for (i, a) in ALL.iter().enumerate() {
        for (j, b) in ALL.iter().enumerate() {
            let expected = if i >= j { *a } else { *b };
            assert_eq!(a.widen(*b), expected);
        }
    }
}

#[test]
fn text_value_makes_integer_and_float_text() {
    assert_eq!(ColumnType::Integer.widen(ColumnType::Text), ColumnType::Text);
    assert_eq!(ColumnType::Float.widen(ColumnType::Text), ColumnType::Text);
}

#[test]
fn integer_value_leaves_float_float() {
    assert_eq!(ColumnType::Float.widen(ColumnType::Integer), ColumnType::Float);
}

#[test]
fn boolean_and_integer_make_integer_either_way() {
    assert_eq!(ColumnType::Integer.widen(ColumnType::Boolean), ColumnType::Integer);
    assert_eq!(ColumnType::Boolean.widen(ColumnType::Integer), ColumnType::Integer);
}

#[test]
fn widen_is_commutative_associative_and_idempotent() {
    for a in ALL {
        assert_eq!(a.widen(a), a);
        for b in ALL {
            assert_eq!(a.widen(b), b.widen(a));
            for c in ALL {
                assert_eq!(a.widen(b).widen(c), a.widen(b.widen(c)));
            }
        }
    }
}

#[test]
fn first_value_sets_the_candidate() {
    for a in ALL {
        assert_eq!(observe(None, a), Some(a));
    }
}

#[test]
fn later_values_widen_the_candidate() {
    assert_eq!(observe(Some(ColumnType::Boolean), ColumnType::Float), Some(ColumnType::Float));
    assert_eq!(observe(Some(ColumnType::Text), ColumnType::Boolean), Some(ColumnType::Text));
}

#[test]
fn unset_candidate_resolves_to_text() {
    assert_eq!(resolve(None), ColumnType::Text);
    for a in ALL {
        assert_eq!(resolve(Some(a)), a);
    }
}

#[test]
fn types_have_their_names() {
    assert_eq!(ColumnType::Boolean.name(), "Boolean");
    assert_eq!(ColumnType::Integer.name(), "Integer");
    assert_eq!(ColumnType::Float.name(), "Float");
    assert_eq!(ColumnType::Text.name(), "Text");
}
