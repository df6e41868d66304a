#![allow(unused_imports)]

use firestore_structured_query::structured_query;
use firestore_structured_query::to_value;
use firestore_structured_query::Error;
use firestore_structured_query::FieldPath;
use firestore_structured_query::Filter;
use firestore_structured_query::Query;
use googleapis_tonic_google_firestore_v1::google::firestore::v1::value::ValueType;
use googleapis_tonic_google_firestore_v1::google::firestore::v1::ArrayValue;
use googleapis_tonic_google_firestore_v1::google::firestore::v1::Value;

#[test]
fn test_full_example_with_serde() -> Result<(), Error> {
    assert_eq!(
        structured_query::StructuredQuery::from(
            Query::collection("collection_id1")
                .select(vec![FieldPath::raw("field1"), FieldPath::raw("field2")])
                .where_(Filter::and(vec![
                    FieldPath::raw("field1").less_than(to_value(&1_i64)?)?,
                    FieldPath::raw("field2").less_than_or_equal(to_value(&2_i64)?)?,
                    FieldPath::raw("field3").greater_than(to_value(&3_i64)?)?,
                    FieldPath::raw("field4").greater_than_or_equal(to_value(&4_i64)?)?,
                    FieldPath::raw("field5").equal(to_value(&5_i64)?)?,
                    FieldPath::raw("field6").not_equal(to_value(&6_i64)?)?,
                    FieldPath::raw("field7").array_contains(to_value(&7_i64)?)?,
                    FieldPath::raw("field8").in_(to_value(&vec![8_i64])?)?,
                    FieldPath::raw("field9").array_contains_any(to_value(&vec![9_i64])?)?,
                    FieldPath::raw("field10").not_in(to_value(&vec![10_i64])?)?,
                    FieldPath::raw("field11").is_nan()?,
                    FieldPath::raw("field12").is_not_nan()?,
                    FieldPath::raw("field13").is_not_null()?,
                    FieldPath::raw("field14").is_null()?,
                    Filter::and(vec![
                        FieldPath::raw("f").equal(to_value(&"a")?)?,
                        FieldPath::raw("f").equal(to_value(&"b")?)?,
                    ]),
                    Filter::or(vec![
                        FieldPath::raw("f").equal(to_value(&"a")?)?,
                        FieldPath::raw("f").equal(to_value(&"b")?)?,
                    ]),
                ]))
                .order_by(vec![
                    FieldPath::raw("field1").ascending(),
                    FieldPath::raw("field2").descending(),
                ])
                .start_at(vec![
                    Value { value_type: Some(ValueType::IntegerValue(1)) },
                    Value { value_type: Some(ValueType::IntegerValue(2)) },
                ])
                .end_at(vec![
                    Value { value_type: Some(ValueType::IntegerValue(1)) },
                    Value { value_type: Some(ValueType::IntegerValue(2)) },
                ])
                .offset(1_i32)
                .limit(2_i32),
        ),
        structured_query::StructuredQuery {
            select: Some(structured_query::Projection {
                fields: vec![
                    structured_query::FieldReference {
                        field_path: "field1".to_string(),
                    },
                    structured_query::FieldReference {
                        field_path: "field2".to_string(),
                    },
                ],
            }),
            from: vec![structured_query::CollectionSelector {
                collection_id: "collection_id1".to_string(),
                all_descendants: false,
            }],
            where_: Some(structured_query::Filter {
                filter_type: Some(structured_query::FilterType::CompositeFilter(
                    structured_query::CompositeFilter {
                        op: structured_query::CompositeFilterOperator::And.code(),
                        filters: vec![
                                structured_query::Filter {
                                    filter_type: Some(structured_query::FilterType::FieldFilter(
                                        structured_query::FieldFilter {
                                            field: Some(structured_query::FieldReference {
                                                field_path: "field1".to_string(),
                                            }),
                                            op: structured_query::FieldFilterOperator::LessThan.code(),
                                            value: Some(Value { value_type: Some(ValueType::IntegerValue(1)) }),
                                        },
                                    )),
                                },
                                structured_query::Filter {
                                    filter_type: Some(structured_query::FilterType::FieldFilter(
                                        structured_query::FieldFilter {
                                            field: Some(structured_query::FieldReference {
                                                field_path: "field2".to_string(),
                                            }),
                                            op: structured_query::FieldFilterOperator::LessThanOrEqual.code(),
                                            value: Some(Value { value_type: Some(ValueType::IntegerValue(2)) }),
                                        },
                                    )),
                                },
                                structured_query::Filter {
                                    filter_type: Some(structured_query::FilterType::FieldFilter(
                                        structured_query::FieldFilter {
                                            field: Some(structured_query::FieldReference {
                                                field_path: "field3".to_string(),
                                            }),
                                            op: structured_query::FieldFilterOperator::GreaterThan.code(),
                                            value: Some(Value { value_type: Some(ValueType::IntegerValue(3)) }),
                                        },
                                    )),
                                },
                                structured_query::Filter {
                                    filter_type: Some(structured_query::FilterType::FieldFilter(
                                        structured_query::FieldFilter {
                                            field: Some(structured_query::FieldReference {
                                                field_path: "field4".to_string(),
                                            }),
                                            op: structured_query::FieldFilterOperator::GreaterThanOrEqual.code(),
                                            value: Some(Value { value_type: Some(ValueType::IntegerValue(4)) }),
                                        },
                                    )),
                                },
                                structured_query::Filter {
                                    filter_type: Some(structured_query::FilterType::FieldFilter(
                                        structured_query::FieldFilter {
                                            field: Some(structured_query::FieldReference {
                                                field_path: "field5".to_string(),
                                            }),
                                            op: structured_query::FieldFilterOperator::Equal.code(),
                                            value: Some(Value { value_type: Some(ValueType::IntegerValue(5)) }),
                                        },
                                    )),
                                },
                                structured_query::Filter {
                                    filter_type: Some(structured_query::FilterType::FieldFilter(
                                        structured_query::FieldFilter {
                                            field: Some(structured_query::FieldReference {
                                                field_path: "field6".to_string(),
                                            }),
                                            op: structured_query::FieldFilterOperator::NotEqual.code(),
                                            value: Some(Value { value_type: Some(ValueType::IntegerValue(6)) }),
                                        },
                                    )),
                                },
                                structured_query::Filter {
                                    filter_type: Some(structured_query::FilterType::FieldFilter(
                                        structured_query::FieldFilter {
                                            field: Some(structured_query::FieldReference {
                                                field_path: "field7".to_string(),
                                            }),
                                            op: structured_query::FieldFilterOperator::ArrayContains.code(),
                                            value: Some(Value { value_type: Some(ValueType::IntegerValue(7)) }),
                                        },
                                    )),
                                },
                                structured_query::Filter {
                                    filter_type: Some(structured_query::FilterType::FieldFilter(
                                        structured_query::FieldFilter {
                                            field: Some(structured_query::FieldReference {
                                                field_path: "field8".to_string(),
                                            }),
                                            op: structured_query::FieldFilterOperator::In.code(),
                                            value: Some(Value { value_type: Some(ValueType::ArrayValue(ArrayValue { values: vec![Value { value_type: Some(ValueType::IntegerValue(8)) }] })) }),
                                        },
                                    )),
                                },
                                structured_query::Filter {
                                    filter_type: Some(structured_query::FilterType::FieldFilter(
                                        structured_query::FieldFilter {
                                            field: Some(structured_query::FieldReference {
                                                field_path: "field9".to_string(),
                                            }),
                                            op: structured_query::FieldFilterOperator::ArrayContainsAny.code(),
                                            value: Some(Value { value_type: Some(ValueType::ArrayValue(ArrayValue { values: vec![Value { value_type: Some(ValueType::IntegerValue(9)) }] })) }),
                                        },
                                    )),
                                },
                                structured_query::Filter {
                                    filter_type: Some(structured_query::FilterType::FieldFilter(
                                        structured_query::FieldFilter {
                                            field: Some(structured_query::FieldReference {
                                                field_path: "field10".to_string(),
                                            }),
                                            op: structured_query::FieldFilterOperator::NotIn.code(),
                                            value: Some(Value { value_type: Some(ValueType::ArrayValue(ArrayValue { values: vec![Value { value_type: Some(ValueType::IntegerValue(10)) }] })) }),
                                        },
                                    )),
                                },
                                structured_query::Filter {
                                    filter_type: Some(structured_query::FilterType::UnaryFilter(
                                        structured_query::UnaryFilter {
                                            op: structured_query::UnaryFilterOperator::IsNan.code(),
                                            operand_type: Some(structured_query::OperandType::Field(
                                                structured_query::FieldReference {
                                                    field_path: "field11".to_string(),
                                                },
                                            )),
                                        },
                                    )),
                                },
                                structured_query::Filter {
                                    filter_type: Some(structured_query::FilterType::UnaryFilter(
                                        structured_query::UnaryFilter {
                                            op: structured_query::UnaryFilterOperator::IsNotNan.code(),
                                            operand_type: Some(structured_query::OperandType::Field(
                                                structured_query::FieldReference {
                                                    field_path: "field12".to_string(),
                                                },
                                            )),
                                        },
                                    )),
                                },
                                structured_query::Filter {
                                    filter_type: Some(structured_query::FilterType::UnaryFilter(
                                        structured_query::UnaryFilter {
                                            op: structured_query::UnaryFilterOperator::IsNotNull.code(),
                                            operand_type: Some(structured_query::OperandType::Field(
                                                structured_query::FieldReference {
                                                    field_path: "field13".to_string(),
                                                },
                                            )),
                                        },
                                    )),
                                },
                                structured_query::Filter {
                                    filter_type: Some(structured_query::FilterType::UnaryFilter(
                                        structured_query::UnaryFilter {
                                            op: structured_query::UnaryFilterOperator::IsNull.code(),
                                            operand_type: Some(structured_query::OperandType::Field(
                                                structured_query::FieldReference {
                                                    field_path: "field14".to_string(),
                                                },
                                            )),
                                        },
                                    )),
                                },
                                structured_query::Filter {
                                    filter_type: Some(structured_query::FilterType::CompositeFilter(
                                        structured_query::CompositeFilter {
                                            op: structured_query::CompositeFilterOperator::And.code(),
                                            filters: vec![
                                                    structured_query::Filter {
                                                        filter_type: Some(structured_query::FilterType::FieldFilter(
                                                            structured_query::FieldFilter {
                                                                field: Some(structured_query::FieldReference {
                                                                    field_path: "f".to_string(),
                                                                }),
                                                                op: structured_query::FieldFilterOperator::Equal.code(),
                                                                value: Some(Value { value_type: Some(ValueType::StringValue("a".to_string())) }),
                                                            },
                                                        )),
                                                    },
                                                    structured_query::Filter {
                                                        filter_type: Some(structured_query::FilterType::FieldFilter(
                                                            structured_query::FieldFilter {
                                                                field: Some(structured_query::FieldReference {
                                                                    field_path: "f".to_string(),
                                                                }),
                                                                op: structured_query::FieldFilterOperator::Equal.code(),
                                                                value: Some(Value { value_type: Some(ValueType::StringValue("b".to_string())) }),
                                                            },
                                                        )),
                                                    }
                                            ],
                                        },
                                    )),
                                },
                                structured_query::Filter {
                                    filter_type: Some(structured_query::FilterType::CompositeFilter(
                                        structured_query::CompositeFilter {
                                            op: structured_query::CompositeFilterOperator::Or.code(),
                                            filters: vec![
                                                    structured_query::Filter {
                                                        filter_type: Some(structured_query::FilterType::FieldFilter(
                                                            structured_query::FieldFilter {
                                                                field: Some(structured_query::FieldReference {
                                                                    field_path: "f".to_string(),
                                                                }),
                                                                op: structured_query::FieldFilterOperator::Equal.code(),
                                                                value: Some(Value { value_type: Some(ValueType::StringValue("a".to_string())) }),
                                                            },
                                                        )),
                                                    },
                                                    structured_query::Filter {
                                                        filter_type: Some(structured_query::FilterType::FieldFilter(
                                                            structured_query::FieldFilter {
                                                                field: Some(structured_query::FieldReference {
                                                                    field_path: "f".to_string(),
                                                                }),
                                                                op: structured_query::FieldFilterOperator::Equal.code(),
                                                                value: Some(Value { value_type: Some(ValueType::StringValue("b".to_string())) }),
                                                            },
                                                        )),
                                                    }
                                            ],
                                        },
                                    )),
                                }
                        ],
                    },
                )),
            }),
            order_by: vec![
                structured_query::Order {
                    field: Some(structured_query::FieldReference {
                        field_path: "field1".to_string(),
                    }),
                    direction: structured_query::Direction::Ascending.code(),
                },
                structured_query::Order {
                    field: Some(structured_query::FieldReference {
                        field_path: "field2".to_string(),
                    }),
                    direction: structured_query::Direction::Descending.code(),
                },
            ],
            start_at: Some(structured_query::Cursor {
                values: vec![
                    Value { value_type: Some(ValueType::IntegerValue(1)) },
                    Value { value_type: Some(ValueType::IntegerValue(2)) },
                ],
                before: true,
            }),
            end_at: Some(structured_query::Cursor {
                values: vec![
                    Value { value_type: Some(ValueType::IntegerValue(1)) },
                    Value { value_type: Some(ValueType::IntegerValue(2)) },
                ],
                before: false,
            }),
            offset: 1_i32,
            limit: Some(2_i32),
        }
    );

    assert_eq!(
        structured_query::StructuredQuery::from(
            Query::collection_group("collection_id1")
                .start_after(vec![
                    Value { value_type: Some(ValueType::IntegerValue(1)) },
                    Value { value_type: Some(ValueType::IntegerValue(2)) },
                ])
                .end_before(vec![
                    Value { value_type: Some(ValueType::IntegerValue(1)) },
                    Value { value_type: Some(ValueType::IntegerValue(2)) },
                ]),
        ),
        structured_query::StructuredQuery {
            select: None,
            from: vec![structured_query::CollectionSelector {
                collection_id: "collection_id1".to_string(),
                all_descendants: true,
            }],
            where_: None,
            order_by: vec![],
            start_at: Some(structured_query::Cursor {
                values: vec![
                    Value { value_type: Some(ValueType::IntegerValue(1)) },
                    Value { value_type: Some(ValueType::IntegerValue(2)) },
                ],
                before: false,
            }),
            end_at: Some(structured_query::Cursor {
                values: vec![
                    Value { value_type: Some(ValueType::IntegerValue(1)) },
                    Value { value_type: Some(ValueType::IntegerValue(2)) },
                ],
                before: true,
            }),
            offset: 0_i32,
            limit: None,
        }
    );

    Ok(())
}

#[test]
fn test_full_example() -> Result<(), Error> {
    assert_eq!(
        structured_query::StructuredQuery::from(
            Query::collection("collection_id1")
                .select(vec![FieldPath::raw("field1"), FieldPath::raw("field2")])
                .where_(Filter::and(vec![
                    FieldPath::raw("field1").less_than(Value { value_type: Some(ValueType::IntegerValue(1)) })?,
                    FieldPath::raw("field2").less_than_or_equal(Value { value_type: Some(ValueType::IntegerValue(2)) })?,
                    FieldPath::raw("field3").greater_than(Value { value_type: Some(ValueType::IntegerValue(3)) })?,
                    FieldPath::raw("field4").greater_than_or_equal(Value { value_type: Some(ValueType::IntegerValue(4)) })?,
                    FieldPath::raw("field5").equal(Value { value_type: Some(ValueType::IntegerValue(5)) })?,
                    FieldPath::raw("field6").not_equal(Value { value_type: Some(ValueType::IntegerValue(6)) })?,
                    FieldPath::raw("field7").array_contains(Value { value_type: Some(ValueType::IntegerValue(7)) })?,
                    FieldPath::raw("field8").in_(Value { value_type: Some(ValueType::ArrayValue(ArrayValue { values: vec![Value { value_type: Some(ValueType::IntegerValue(8)) }] })) })?,
                    FieldPath::raw("field9").array_contains_any(Value { value_type: Some(ValueType::ArrayValue(ArrayValue { values: vec![Value { value_type: Some(ValueType::IntegerValue(9)) }] })) })?,
                    FieldPath::raw("field10").not_in(Value { value_type: Some(ValueType::ArrayValue(ArrayValue { values: vec![Value { value_type: Some(ValueType::IntegerValue(10)) }] })) })?,
                    FieldPath::raw("field11").is_nan()?,
                    FieldPath::raw("field12").is_not_nan()?,
                    FieldPath::raw("field13").is_not_null()?,
                    FieldPath::raw("field14").is_null()?,
                    Filter::and(vec![
                        FieldPath::raw("f").equal(Value { value_type: Some(ValueType::StringValue("a".to_string())) })?,
                        FieldPath::raw("f").equal(Value { value_type: Some(ValueType::StringValue("b".to_string())) })?,
                    ]),
                    Filter::or(vec![
                        FieldPath::raw("f").equal(Value { value_type: Some(ValueType::StringValue("a".to_string())) })?,
                        FieldPath::raw("f").equal(Value { value_type: Some(ValueType::StringValue("b".to_string())) })?,
                    ]),
                ]))
                .order_by(vec![
                    FieldPath::raw("field1").ascending(),
                    FieldPath::raw("field2").descending(),
                ])
                .start_at(vec![
                    Value { value_type: Some(ValueType::IntegerValue(1)) },
                    Value { value_type: Some(ValueType::IntegerValue(2)) },
                ])
                .end_at(vec![
                    Value { value_type: Some(ValueType::IntegerValue(1)) },
                    Value { value_type: Some(ValueType::IntegerValue(2)) },
                ])
                .offset(1_i32)
                .limit(2_i32),
        ),
        structured_query::StructuredQuery {
            select: Some(structured_query::Projection {
                fields: vec![
                    structured_query::FieldReference {
                        field_path: "field1".to_string(),
                    },
                    structured_query::FieldReference {
                        field_path: "field2".to_string(),
                    },
                ],
            }),
            from: vec![structured_query::CollectionSelector {
                collection_id: "collection_id1".to_string(),
                all_descendants: false,
            }],
            where_: Some(structured_query::Filter {
                filter_type: Some(structured_query::FilterType::CompositeFilter(
                    structured_query::CompositeFilter {
                        op: structured_query::CompositeFilterOperator::And.code(),
                        filters: vec![
                                structured_query::Filter {
                                    filter_type: Some(structured_query::FilterType::FieldFilter(
                                        structured_query::FieldFilter {
                                            field: Some(structured_query::FieldReference {
                                                field_path: "field1".to_string(),
                                            }),
                                            op: structured_query::FieldFilterOperator::LessThan.code(),
                                            value: Some(Value { value_type: Some(ValueType::IntegerValue(1)) }),
                                        },
                                    )),
                                },
                                structured_query::Filter {
                                    filter_type: Some(structured_query::FilterType::FieldFilter(
                                        structured_query::FieldFilter {
                                            field: Some(structured_query::FieldReference {
                                                field_path: "field2".to_string(),
                                            }),
                                            op: structured_query::FieldFilterOperator::LessThanOrEqual.code(),
                                            value: Some(Value { value_type: Some(ValueType::IntegerValue(2)) }),
                                        },
                                    )),
                                },
                                structured_query::Filter {
                                    filter_type: Some(structured_query::FilterType::FieldFilter(
                                        structured_query::FieldFilter {
                                            field: Some(structured_query::FieldReference {
                                                field_path: "field3".to_string(),
                                            }),
                                            op: structured_query::FieldFilterOperator::GreaterThan.code(),
                                            value: Some(Value { value_type: Some(ValueType::IntegerValue(3)) }),
                                        },
                                    )),
                                },
                                structured_query::Filter {
                                    filter_type: Some(structured_query::FilterType::FieldFilter(
                                        structured_query::FieldFilter {
                                            field: Some(structured_query::FieldReference {
                                                field_path: "field4".to_string(),
                                            }),
                                            op: structured_query::FieldFilterOperator::GreaterThanOrEqual.code(),
                                            value: Some(Value { value_type: Some(ValueType::IntegerValue(4)) }),
                                        },
                                    )),
                                },
                                structured_query::Filter {
                                    filter_type: Some(structured_query::FilterType::FieldFilter(
                                        structured_query::FieldFilter {
                                            field: Some(structured_query::FieldReference {
                                                field_path: "field5".to_string(),
                                            }),
                                            op: structured_query::FieldFilterOperator::Equal.code(),
                                            value: Some(Value { value_type: Some(ValueType::IntegerValue(5)) }),
                                        },
                                    )),
                                },
                                structured_query::Filter {
                                    filter_type: Some(structured_query::FilterType::FieldFilter(
                                        structured_query::FieldFilter {
                                            field: Some(structured_query::FieldReference {
                                                field_path: "field6".to_string(),
                                            }),
                                            op: structured_query::FieldFilterOperator::NotEqual.code(),
                                            value: Some(Value { value_type: Some(ValueType::IntegerValue(6)) }),
                                        },
                                    )),
                                },
                                structured_query::Filter {
                                    filter_type: Some(structured_query::FilterType::FieldFilter(
                                        structured_query::FieldFilter {
                                            field: Some(structured_query::FieldReference {
                                                field_path: "field7".to_string(),
                                            }),
                                            op: structured_query::FieldFilterOperator::ArrayContains.code(),
                                            value: Some(Value { value_type: Some(ValueType::IntegerValue(7)) }),
                                        },
                                    )),
                                },
                                structured_query::Filter {
                                    filter_type: Some(structured_query::FilterType::FieldFilter(
                                        structured_query::FieldFilter {
                                            field: Some(structured_query::FieldReference {
                                                field_path: "field8".to_string(),
                                            }),
                                            op: structured_query::FieldFilterOperator::In.code(),
                                            value: Some(Value { value_type: Some(ValueType::ArrayValue(ArrayValue { values: vec![Value { value_type: Some(ValueType::IntegerValue(8)) }] })) }),
                                        },
                                    )),
                                },
                                structured_query::Filter {
                                    filter_type: Some(structured_query::FilterType::FieldFilter(
                                        structured_query::FieldFilter {
                                            field: Some(structured_query::FieldReference {
                                                field_path: "field9".to_string(),
                                            }),
                                            op: structured_query::FieldFilterOperator::ArrayContainsAny.code(),
                                            value: Some(Value { value_type: Some(ValueType::ArrayValue(ArrayValue { values: vec![Value { value_type: Some(ValueType::IntegerValue(9)) }] })) }),
                                        },
                                    )),
                                },
                                structured_query::Filter {
                                    filter_type: Some(structured_query::FilterType::FieldFilter(
                                        structured_query::FieldFilter {
                                            field: Some(structured_query::FieldReference {
                                                field_path: "field10".to_string(),
                                            }),
                                            op: structured_query::FieldFilterOperator::NotIn.code(),
                                            value: Some(Value { value_type: Some(ValueType::ArrayValue(ArrayValue { values: vec![Value { value_type: Some(ValueType::IntegerValue(10)) }] })) }),
                                        },
                                    )),
                                },
                                structured_query::Filter {
                                    filter_type: Some(structured_query::FilterType::UnaryFilter(
                                        structured_query::UnaryFilter {
                                            op: structured_query::UnaryFilterOperator::IsNan.code(),
                                            operand_type: Some(structured_query::OperandType::Field(
                                                structured_query::FieldReference {
                                                    field_path: "field11".to_string(),
                                                },
                                            )),
                                        },
                                    )),
                                },
                                structured_query::Filter {
                                    filter_type: Some(structured_query::FilterType::UnaryFilter(
                                        structured_query::UnaryFilter {
                                            op: structured_query::UnaryFilterOperator::IsNotNan.code(),
                                            operand_type: Some(structured_query::OperandType::Field(
                                                structured_query::FieldReference {
                                                    field_path: "field12".to_string(),
                                                },
                                            )),
                                        },
                                    )),
                                },
                                structured_query::Filter {
                                    filter_type: Some(structured_query::FilterType::UnaryFilter(
                                        structured_query::UnaryFilter {
                                            op: structured_query::UnaryFilterOperator::IsNotNull.code(),
                                            operand_type: Some(structured_query::OperandType::Field(
                                                structured_query::FieldReference {
                                                    field_path: "field13".to_string(),
                                                },
                                            )),
                                        },
                                    )),
                                },
                                structured_query::Filter {
                                    filter_type: Some(structured_query::FilterType::UnaryFilter(
                                        structured_query::UnaryFilter {
                                            op: structured_query::UnaryFilterOperator::IsNull.code(),
                                            operand_type: Some(structured_query::OperandType::Field(
                                                structured_query::FieldReference {
                                                    field_path: "field14".to_string(),
                                                },
                                            )),
                                        },
                                    )),
                                },
                                structured_query::Filter {
                                    filter_type: Some(structured_query::FilterType::CompositeFilter(
                                        structured_query::CompositeFilter {
                                            op: structured_query::CompositeFilterOperator::And.code(),
                                            filters: vec![
                                                    structured_query::Filter {
                                                        filter_type: Some(structured_query::FilterType::FieldFilter(
                                                            structured_query::FieldFilter {
                                                                field: Some(structured_query::FieldReference {
                                                                    field_path: "f".to_string(),
                                                                }),
                                                                op: structured_query::FieldFilterOperator::Equal.code(),
                                                                value: Some(Value { value_type: Some(ValueType::StringValue("a".to_string())) }),
                                                            },
                                                        )),
                                                    },
                                                    structured_query::Filter {
                                                        filter_type: Some(structured_query::FilterType::FieldFilter(
                                                            structured_query::FieldFilter {
                                                                field: Some(structured_query::FieldReference {
                                                                    field_path: "f".to_string(),
                                                                }),
                                                                op: structured_query::FieldFilterOperator::Equal.code(),
                                                                value: Some(Value { value_type: Some(ValueType::StringValue("b".to_string())) }),
                                                            },
                                                        )),
                                                    }
                                            ],
                                        },
                                    )),
                                },
                                structured_query::Filter {
                                    filter_type: Some(structured_query::FilterType::CompositeFilter(
                                        structured_query::CompositeFilter {
                                            op: structured_query::CompositeFilterOperator::Or.code(),
                                            filters: vec![
                                                    structured_query::Filter {
                                                        filter_type: Some(structured_query::FilterType::FieldFilter(
                                                            structured_query::FieldFilter {
                                                                field: Some(structured_query::FieldReference {
                                                                    field_path: "f".to_string(),
                                                                }),
                                                                op: structured_query::FieldFilterOperator::Equal.code(),
                                                                value: Some(Value { value_type: Some(ValueType::StringValue("a".to_string())) }),
                                                            },
                                                        )),
                                                    },
                                                    structured_query::Filter {
                                                        filter_type: Some(structured_query::FilterType::FieldFilter(
                                                            structured_query::FieldFilter {
                                                                field: Some(structured_query::FieldReference {
                                                                    field_path: "f".to_string(),
                                                                }),
                                                                op: structured_query::FieldFilterOperator::Equal.code(),
                                                                value: Some(Value { value_type: Some(ValueType::StringValue("b".to_string())) }),
                                                            },
                                                        )),
                                                    }
                                            ],
                                        },
                                    )),
                                }
                        ],
                    },
                )),
            }),
            order_by: vec![
                structured_query::Order {
                    field: Some(structured_query::FieldReference {
                        field_path: "field1".to_string(),
                    }),
                    direction: structured_query::Direction::Ascending.code(),
                },
                structured_query::Order {
                    field: Some(structured_query::FieldReference {
                        field_path: "field2".to_string(),
                    }),
                    direction: structured_query::Direction::Descending.code(),
                },
            ],
            start_at: Some(structured_query::Cursor {
                values: vec![
                    Value { value_type: Some(ValueType::IntegerValue(1)) },
                    Value { value_type: Some(ValueType::IntegerValue(2)) },
                ],
                before: true,
            }),
            end_at: Some(structured_query::Cursor {
                values: vec![
                    Value { value_type: Some(ValueType::IntegerValue(1)) },
                    Value { value_type: Some(ValueType::IntegerValue(2)) },
                ],
                before: false,
            }),
            offset: 1_i32,
            limit: Some(2_i32),
        }
    );

    assert_eq!(
        structured_query::StructuredQuery::from(
            Query::collection_group("collection_id1")
                .start_after(vec![
                    Value { value_type: Some(ValueType::IntegerValue(1)) },
                    Value { value_type: Some(ValueType::IntegerValue(2)) },
                ])
                .end_before(vec![
                    Value { value_type: Some(ValueType::IntegerValue(1)) },
                    Value { value_type: Some(ValueType::IntegerValue(2)) },
                ]),
        ),
        structured_query::StructuredQuery {
            select: None,
            from: vec![structured_query::CollectionSelector {
                collection_id: "collection_id1".to_string(),
                all_descendants: true,
            }],
            where_: None,
            order_by: vec![],
            start_at: Some(structured_query::Cursor {
                values: vec![
                    Value { value_type: Some(ValueType::IntegerValue(1)) },
                    Value { value_type: Some(ValueType::IntegerValue(2)) },
                ],
                before: false,
            }),
            end_at: Some(structured_query::Cursor {
                values: vec![
                    Value { value_type: Some(ValueType::IntegerValue(1)) },
                    Value { value_type: Some(ValueType::IntegerValue(2)) },
                ],
                before: true,
            }),
            offset: 0_i32,
            limit: None,
        }
    );

    Ok(())
}

