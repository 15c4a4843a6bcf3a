use query_builder::Column;
use query_builder::Comparison;
use query_builder::Constraint;
use query_builder::ConstraintType;
use query_builder::Query;
use query_builder::Statement;
use query_builder::Table;

#[test]
fn start_and_equal_appends_one_closed_node() {
    let query = Query::new().start_and("colA").equal(35);

    assert_eq!(query.constraints.len(), 1);
    let node = &query.constraints[0];
    assert_eq!(node.constraint_type, ConstraintType::And);
    assert_eq!(node.comparison, Comparison::Equal);
    match &node.right_value {
        Statement::StringValue(seed) => assert_eq!(seed, "colA"),
        _ => panic!("seed is not a string literal"),
    }
    assert_eq!(node.left_values.len(), 1);
    assert!(matches!(node.left_values[0], Statement::I32(35)));
}

#[test]
fn start_or_keeps_requested_combinator() {
    let query = Query::new().start_or("flag").equal(1);

    assert_eq!(query.constraints[0].constraint_type, ConstraintType::Or);
}

#[test]
fn between_preserves_operand_order() {
    let query = Query::new().start_and("n").between(1, 10);

    let node = &query.constraints[0];
    assert_eq!(node.comparison, Comparison::Between);
    assert_eq!(node.left_values.len(), 2);
    assert!(matches!(node.left_values[0], Statement::I32(1)));
    assert!(matches!(node.left_values[1], Statement::I32(10)));
}

#[test]
fn between_does_not_reorder_reversed_bounds() {
    let query = Query::new().start_and("n").between(10, 1);

    let node = &query.constraints[0];
    assert!(matches!(node.left_values[0], Statement::I32(10)));
    assert!(matches!(node.left_values[1], Statement::I32(1)));
}

#[test]
fn in_with_empty_input_is_legal() {
    let values: Vec<i32> = vec![];
    let query = Query::new().start_and("n").in_(values);

    let node = &query.constraints[0];
    assert_eq!(node.comparison, Comparison::In);
    assert!(node.left_values.is_empty());
}

#[test]
fn in_keeps_input_order() {
    let query = Query::new().start_and("n").in_(vec![3, 1, 2]);

    let node = &query.constraints[0];
    assert_eq!(node.left_values.len(), 3);
    assert!(matches!(node.left_values[0], Statement::I32(3)));
    assert!(matches!(node.left_values[1], Statement::I32(1)));
    assert!(matches!(node.left_values[2], Statement::I32(2)));
}

#[test]
fn not_in_closes_with_operands() {
    let query = Query::new().start_and("n").not_in(vec![4, 5]);

    let node = &query.constraints[0];
    assert_eq!(node.comparison, Comparison::NotIn);
    assert_eq!(node.left_values.len(), 2);
}

#[test]
fn null_tests_take_no_operand() {
    let query = Query::new().start_and("a").is_null().start_and("b").is_not_null();

    assert_eq!(query.constraints.len(), 2);
    assert_eq!(query.constraints[0].comparison, Comparison::IsNull);
    assert!(query.constraints[0].left_values.is_empty());
    assert_eq!(query.constraints[1].comparison, Comparison::IsNotNull);
    assert!(query.constraints[1].left_values.is_empty());
}

#[test]
fn every_single_operand_comparison_closes() {
    let query = Query::new()
        .start_and("a").different(1)
        .start_and("b").greater_than(2)
        .start_and("c").less_than(3)
        .start_and("d").greater_than_or_equal(4)
        .start_and("e").less_than_or_equal(5)
        .start_and("f").like("x%")
        .start_and("g").not_like("y%");

    let expected = [
        Comparison::Different,
        Comparison::GreaterThan,
        Comparison::LessThan,
        Comparison::GreaterThanOrEqual,
        Comparison::LessThanOrEqual,
        Comparison::Like,
        Comparison::NotLike,
    ];
    assert_eq!(query.constraints.len(), expected.len());
    for (node, want) in query.constraints.iter().zip(expected.iter()) {
        assert_eq!(node.comparison, *want);
        assert_eq!(node.left_values.len(), 1);
    }
}

#[test]
fn chaining_keeps_earlier_constraints() {
    let query = Query::new()
        .from("t")
        .start_and("a").equal(1)
        .start_or("b").equal(2);

    assert_eq!(query.constraints.len(), 2);
    assert_eq!(query.constraints[0].constraint_type, ConstraintType::And);
    assert_eq!(query.constraints[1].constraint_type, ConstraintType::Or);
    match &query.table.value {
        Statement::StringValue(t) => assert_eq!(t, "t"),
        _ => panic!("table is not a string literal"),
    }
}

#[test]
fn constraint_constructors_start_open() {
    let and_node = Constraint::and("x");
    assert_eq!(and_node.constraint_type, ConstraintType::And);
    assert_eq!(and_node.comparison, Comparison::NoComparison);
    assert!(and_node.left_values.is_empty());

    let or_node = Constraint::or("x");
    assert_eq!(or_node.constraint_type, ConstraintType::Or);

    let plain = Constraint::new(ConstraintType::NoType, "x");
    assert_eq!(plain.constraint_type, ConstraintType::NoType);
    assert_eq!(plain.comparison, Comparison::NoComparison);
}

#[test]
fn constraint_terminal_closes_node() {
    let node = Constraint::and("col").equal("val");

    assert_eq!(node.comparison, Comparison::Equal);
    assert_eq!(node.left_values.len(), 1);
}

#[test]
fn constraint_and_equal_builds_closed_node() {
    let node = Constraint::and_equal("col", 9);

    assert_eq!(node.constraint_type, ConstraintType::And);
    assert_eq!(node.comparison, Comparison::Equal);
    match &node.right_value {
        Statement::StringValue(seed) => assert_eq!(seed, "col"),
        _ => panic!("seed is not a string literal"),
    }
    assert!(matches!(node.left_values[0], Statement::I32(9)));
}

#[test]
fn sub_query_is_independent_of_outer_mutation() {
    let inner = Query::new().from("inner_t").select("inner_c");
    let mut outer = Query::new().from("outer_t").select(inner);

    outer.and_equal("k", 1);
    let outer = outer.select("later_col").start_and("m").equal(2);

    match &outer.columns[0].value {
        Statement::Query(embedded) => {
            match &embedded.table.value {
                Statement::StringValue(t) => assert_eq!(t, "inner_t"),
                _ => panic!("embedded table changed"),
            }
            assert_eq!(embedded.columns.len(), 1);
            match &embedded.columns[0].value {
                Statement::StringValue(c) => assert_eq!(c, "inner_c"),
                _ => panic!("embedded column changed"),
            }
            assert!(embedded.constraints.is_empty());
        }
        _ => panic!("first column no longer embeds the sub-query"),
    }
}

#[test]
fn sub_query_as_operand_is_independent() {
    let inner = Query::new().from("inner_t");
    let query = Query::new().from("outer_t").start_and("col").equal(inner);
    let query = query.select("extra");

    let node = &query.constraints[0];
    match &node.left_values[0] {
        Statement::Query(embedded) => {
            match &embedded.table.value {
                Statement::StringValue(t) => assert_eq!(t, "inner_t"),
                _ => panic!("embedded table changed"),
            }
            assert!(embedded.columns.is_empty());
        }
        _ => panic!("operand no longer embeds the sub-query"),
    }
}

#[test]
fn table_and_column_descriptors() {
    let table = Table::new("t");
    match &table.value {
        Statement::StringValue(t) => assert_eq!(t, "t"),
        _ => panic!("wrong variant"),
    }
    assert!(table.alias.is_none());

    let empty_table = Table::empty();
    assert!(matches!(empty_table.value, Statement::NoStatement));

    let default_table = Table::default();
    assert!(matches!(default_table.value, Statement::NoStatement));

    let column = Column::new(3);
    assert!(matches!(column.value, Statement::I32(3)));
    assert!(column.alias.is_none());

    let empty_column = Column::empty();
    assert!(matches!(empty_column.value, Statement::NoStatement));
}
