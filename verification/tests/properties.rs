use serde_json::Value;
use wot_schema::data_schema::{
    BuildableDataSchema, DataSchemaBuilder, EnumerableDataSchema, Extended,
    IntegerDataSchemaBuilderLike,
    NumberDataSchemaBuilderLike, ObjectDataSchemaBuilderLike, PartialDataSchema,
    PartialDataSchemaBuilder, ReadOnly, ReadableWriteableDataSchema, SpecializableDataSchema,
    StatelessDataSchemaBuilder, StatelessDataSchemaType, TupleDataSchemaBuilderLike,
    UncheckedDataSchema, UnionDataSchema, VecDataSchemaBuilderLike, WriteOnly,
};
use wot_schema::check::{check_data_schema_subtype, check_one_of_schema, uri_variables_contains_arrays_objects};
use wot_schema::error::Error;
use wot_schema::extend::{Extend, Extendable};
use wot_schema::flat_map_serialize::{bad_type_message, ContentSerializer, Unsupported};
use wot_schema::hlist::{Cons, Nil};
use wot_schema::human_readable_info::{BuildableHumanReadableInfo, HumanReadableInfo};
use wot_schema::lang::{LanguageTag, MultiLanguage, MultiLanguageBuilder};
use wot_schema::number::{Comparison, Double};
use wot_schema::ordered_map::OrderedMap;
use wot_schema::protocol::coap;
use wot_schema::protocol::http;
use wot_schema::thing::{
    ArraySchema, BoxedElemOrVec, DataSchema, DataSchemaSubtype, IntegerSchema, Maximum, Minimum,
    NonZeroU64, NumberSchema, ObjectSchema, UncheckedArraySchema, UncheckedDataSchemaSubtype,
    UncheckedObjectSchema,
};

fn s(text: &str) -> String {
    text.to_string()
}

fn d(value: f64) -> Double {
    Double::from_bits(value.to_bits())
}

fn number(minimum: Option<Minimum<Double>>, maximum: Option<Maximum<Double>>) -> NumberSchema {
    NumberSchema { minimum, maximum, multiple_of: None }
}

fn number_node(schema: NumberSchema) -> UncheckedDataSchema<Nil, Nil, Nil> {
    UncheckedDataSchema {
        subtype: Some(UncheckedDataSchemaSubtype::Number(schema)),
        ..Default::default()
    }
}

const SAMPLES: [f64; 17] = [
    f64::NEG_INFINITY,
    f64::MIN,
    -1.0e10,
    -2.5,
    -1.0,
    -f64::MIN_POSITIVE,
    -5e-324,
    -0.0,
    0.0,
    5e-324,
    f64::MIN_POSITIVE,
    0.5,
    1.0,
    2.0,
    1.0e10,
    f64::MAX,
    f64::INFINITY,
];

#[test]
fn double_compares_as_the_number_it_holds() {
    for a in SAMPLES {
        for b in SAMPLES {
            let expected = a.partial_cmp(&b).map(|order| match order {
                std::cmp::Ordering::Less => Comparison::Less,
                std::cmp::Ordering::Equal => Comparison::Equal,
                std::cmp::Ordering::Greater => Comparison::Greater,
            });
            assert_eq!(d(a).compare(&d(b)), expected, "{a} against {b}");
        }
    }
}

#[test]
fn double_not_a_number_compares_with_nothing() {
    let nan = d(f64::NAN);
    assert!(nan.is_nan());
    assert!(d(-f64::NAN).is_nan());
    assert!(Double::from_bits(0x7ff0_0000_0000_0001).is_nan());
    assert!(Double::from_bits(0xfff8_0000_0000_0000).is_nan());
    for a in SAMPLES {
        assert!(!d(a).is_nan(), "{a}");
        assert_eq!(d(a).compare(&nan), None);
        assert_eq!(nan.compare(&d(a)), None);
    }
    assert_eq!(nan.compare(&nan), None);
}

#[test]
fn double_at_most_zero_is_as_for_the_number() {
    for a in SAMPLES {
        assert_eq!(d(a).is_at_most_zero(), a <= 0.0, "{a}");
    }
    assert!(!d(f64::NAN).is_at_most_zero());
}

#[test]
fn double_keeps_its_bits() {
    assert_eq!(d(1.5).to_bits(), 1.5f64.to_bits());
    assert_eq!(Double::from_bits(0x4000_0000_0000_0000), d(2.0));
    assert_eq!(f64::from_bits(d(-0.25).to_bits()), -0.25);
}

#[test]
fn non_zero_rejects_zero() {
    assert_eq!(NonZeroU64::new(0), None);
    assert_eq!(NonZeroU64::new(7).unwrap().get(), 7);
    assert_eq!(NonZeroU64::new(u64::MAX).unwrap().get(), u64::MAX);
}

#[test]
fn ordered_map_keeps_insertion_order() {
    let mut map = OrderedMap::new();
    assert!(map.is_empty());
    map.insert(s("b"), 1);
    map.insert(s("a"), 2);
    map.insert(s("c"), 3);
    assert_eq!(map.len(), 3);
    assert_eq!(map.entries, vec![(s("b"), 1), (s("a"), 2), (s("c"), 3)]);
    assert_eq!(map.find(&s("a")), Some(1));
    assert_eq!(map.find(&s("z")), None);
    assert_eq!(map.get(&s("c")), Some(&3));
    assert_eq!(map.get(&s("")), None);
}

#[test]
fn ordered_map_replaces_in_place() {
    let mut map = OrderedMap::new();
    map.insert(s("a"), 1);
    map.insert(s("b"), 2);
    map.insert(s("a"), 3);
    assert_eq!(map.entries, vec![(s("a"), 3), (s("b"), 2)]);
}

#[test]
fn ordered_map_collects_pairs() {
    let map = OrderedMap::from_pairs(vec![(s("x"), 1), (s("y"), 2), (s("x"), 3), (s("z"), 4)]);
    assert_eq!(map.entries, vec![(s("x"), 3), (s("y"), 2), (s("z"), 4)]);
    let empty: OrderedMap<u8> = OrderedMap::from_pairs(vec![]);
    assert_eq!(empty, OrderedMap::default());
}

#[test]
fn language_tag_is_normalized() {
    assert_eq!(LanguageTag::parse("en-us").unwrap().as_str(), "en-US");
    assert_eq!(LanguageTag::parse("IT").unwrap().as_str(), "it");
    assert_eq!(LanguageTag::parse("zh-hant-tw").unwrap().as_str(), "zh-Hant-TW");
    assert_eq!(LanguageTag::parse("en").unwrap(), LanguageTag { tag: s("en") });
}

#[test]
fn language_tag_rejects_what_is_not_a_tag() {
    assert_eq!(LanguageTag::parse("e1n").unwrap_err(), Error::InvalidLanguageTag(s("e1n")));
    assert_eq!(LanguageTag::parse("").unwrap_err(), Error::InvalidLanguageTag(s("")));
    assert_eq!(
        LanguageTag::parse("en-").unwrap_err(),
        Error::InvalidLanguageTag(s("en-"))
    );
}

#[test]
fn language_tag_from_normalized_follows_the_outcome() {
    assert_eq!(
        LanguageTag::from_normalized("EN", Some(s("en"))),
        Ok(LanguageTag { tag: s("en") })
    );
    assert_eq!(
        LanguageTag::from_normalized("e1n", None),
        Err(Error::InvalidLanguageTag(s("e1n")))
    );
}

#[test]
fn multi_language_accept_follows_the_outcome() {
    let mut map = MultiLanguage::new();
    assert_eq!(map.accept(s("EN"), Some(s("en")), s("hello")), Ok(()));
    assert_eq!(map.values.entries, vec![(s("en"), s("hello"))]);
    assert_eq!(
        map.accept(s("e1n"), None, s("ciao")),
        Err(Error::InvalidLanguageTag(s("e1n")))
    );
    assert_eq!(map.values.entries, vec![(s("en"), s("hello"))]);
}

#[test]
fn multi_language_build_stores_texts_under_normal_tags() {
    let built = MultiLanguageBuilder::default()
        .add(s("en-us"), s("color"))
        .add(s("en-gb"), s("colour"))
        .add(s("IT"), s("colore"))
        .build()
        .unwrap();
    assert_eq!(
        built.values.entries,
        vec![(s("en-US"), s("color")), (s("en-GB"), s("colour")), (s("it"), s("colore"))]
    );
}

#[test]
fn multi_language_build_reports_the_first_bad_key() {
    let failed = MultiLanguageBuilder::default()
        .add(s("en"), s("one"))
        .add(s("n0t a tag"), s("two"))
        .add(s("it"), s("three"))
        .add(s("e1n"), s("four"))
        .build();
    assert_eq!(failed, Err(Error::InvalidLanguageTag(s("n0t a tag"))));
}

#[test]
fn multi_language_builder_replaces_a_language_that_is_named_again() {
    let builder = MultiLanguageBuilder::default()
        .add(s("en"), s("one"))
        .add(s("it"), s("uno"))
        .add(s("en"), s("two"));
    assert_eq!(builder.values.entries, vec![(s("en"), s("two")), (s("it"), s("uno"))]);
    let empty: MultiLanguageBuilder<String> = MultiLanguageBuilder::new();
    assert_eq!(empty.build().unwrap(), MultiLanguage::new());
}

#[test]
fn multi_language_keys_that_normalize_alike_share_one_entry() {
    let built = MultiLanguageBuilder::default()
        .add(s("EN"), s("first"))
        .add(s("it"), s("uno"))
        .add(s("en"), s("second"))
        .build()
        .unwrap();
    assert_eq!(built.values.entries, vec![(s("en"), s("second")), (s("it"), s("uno"))]);
}

#[test]
fn fresh_builders_have_a_bare_baseline() {
    let null: DataSchema<Nil, Nil, Nil> =
        DataSchemaBuilder::<Nil, Nil, Nil, _>::empty().finish_extend().null().try_into().unwrap();
    assert_eq!(
        null,
        DataSchema { subtype: Some(DataSchemaSubtype::Null), ..Default::default() }
    );
    let boolean: PartialDataSchema<Nil, Nil, Nil> =
        PartialDataSchemaBuilder::<Nil, Nil, Nil, _>::empty().finish_extend().bool().into();
    assert_eq!(
        boolean,
        PartialDataSchema {
            subtype: Some(UncheckedDataSchemaSubtype::Boolean),
            ..Default::default()
        }
    );
}

#[test]
fn constant_ignores_earlier_setters_for_its_flags() {
    let schema: UncheckedDataSchema<Nil, Nil, Nil> = DataSchemaBuilder::default()
        .unit(s("cm"))
        .format(s("f"))
        .default_value(Value::from(1))
        .title(s("t"))
        .constant(Value::from("v"))
        .into();
    assert_eq!(
        schema,
        UncheckedDataSchema {
            title: Some(s("t")),
            constant: Some(Value::from("v")),
            default: Some(Value::from(1)),
            unit: Some(s("cm")),
            format: Some(s("f")),
            read_only: true,
            write_only: false,
            subtype: None,
            ..Default::default()
        }
    );
}

#[test]
fn enumeration_keeps_the_order_of_the_calls() {
    let schema: UncheckedDataSchema<Nil, Nil, Nil> = DataSchemaBuilder::default()
        .enumeration(Value::from("a"))
        .enumeration(Value::from("b"))
        .enumeration(Value::from("c"))
        .into();
    assert_eq!(
        schema.enumeration,
        Some(vec![Value::from("a"), Value::from("b"), Value::from("c")])
    );
    assert_eq!(schema.subtype, None);
    assert_eq!(schema.one_of, None);
}

#[test]
fn read_only_keeps_fields_and_later_setters_apply() {
    let schema: UncheckedDataSchema<Nil, Nil, Nil> = DataSchemaBuilder::default()
        .unit(s("before"))
        .number()
        .minimum(d(1.0))
        .read_only()
        .maximum(d(3.0))
        .format(s("after"))
        .title(s("late"))
        .into();
    assert_eq!(
        schema,
        UncheckedDataSchema {
            title: Some(s("late")),
            unit: Some(s("before")),
            format: Some(s("after")),
            read_only: true,
            write_only: false,
            subtype: Some(UncheckedDataSchemaSubtype::Number(NumberSchema {
                minimum: Some(Minimum::Inclusive(d(1.0))),
                maximum: Some(Maximum::Inclusive(d(3.0))),
                multiple_of: None,
            })),
            ..Default::default()
        }
    );
}

#[test]
fn write_only_marks_the_schema_and_clears_read_only() {
    let schema: UncheckedDataSchema<Nil, Nil, Nil> =
        DataSchemaBuilder::default().integer().write_only().minimum(4).into();
    assert!(schema.write_only);
    assert!(!schema.read_only);
    let marked_by_hand: UncheckedDataSchema<Nil, Nil, Nil> = WriteOnly {
        inner: ReadOnly {
            inner: StatelessDataSchemaBuilder {
                inner: DataSchemaBuilder::default(),
                ty: Some(StatelessDataSchemaType::Null),
            },
        },
    }
    .into();
    assert!(!marked_by_hand.read_only);
    assert!(marked_by_hand.write_only);
}

#[test]
fn a_schema_is_never_read_only_and_write_only() {
    let plain: DataSchemaBuilder<Nil, Nil, Nil, Extended> =
        DataSchemaBuilder::default().write_only().into();
    assert!(plain.partial.write_only);
    assert!(!plain.partial.read_only);
    let remarked: UncheckedDataSchema<Nil, Nil, Nil> = plain.bool().read_only().into();
    assert!(remarked.read_only);
    assert!(!remarked.write_only);
    let plain: DataSchemaBuilder<Nil, Nil, Nil, Extended> =
        DataSchemaBuilder::default().write_only().into();
    let constant: UncheckedDataSchema<Nil, Nil, Nil> = plain.constant(Value::from(1)).into();
    assert_eq!(
        constant,
        UncheckedDataSchema {
            constant: Some(Value::from(1)),
            read_only: true,
            write_only: false,
            ..Default::default()
        }
    );
    let plain: PartialDataSchemaBuilder<Nil, Nil, Nil, Extended> =
        PartialDataSchemaBuilder::default().read_only().into();
    assert!(plain.read_only);
    let rewritten: PartialDataSchema<Nil, Nil, Nil> = plain.integer().write_only().into();
    assert!(rewritten.write_only);
    assert!(!rewritten.read_only);
    let outermost: UncheckedDataSchema<Nil, Nil, Nil> = ReadOnly {
        inner: WriteOnly { inner: DataSchemaBuilder::default().null() },
    }
    .into();
    assert!(outermost.read_only);
    assert!(!outermost.write_only);
    let back: DataSchemaBuilder<Nil, Nil, Nil, Extended> = WriteOnly {
        inner: ReadOnly { inner: DataSchemaBuilder::default() },
    }
    .into();
    assert!(back.partial.write_only);
    assert!(!back.partial.read_only);
}

#[test]
fn the_last_bound_wins() {
    let schema: UncheckedDataSchema<Nil, Nil, Nil> = DataSchemaBuilder::default()
        .number()
        .minimum(d(1.0))
        .exclusive_minimum(d(2.0))
        .exclusive_maximum(d(9.0))
        .maximum(d(8.0))
        .into();
    assert_eq!(
        schema.subtype,
        Some(UncheckedDataSchemaSubtype::Number(NumberSchema {
            minimum: Some(Minimum::Exclusive(d(2.0))),
            maximum: Some(Maximum::Inclusive(d(8.0))),
            multiple_of: None,
        }))
    );
}

#[test]
fn empty_range_is_built_and_only_validation_flags_it() {
    let schema: UncheckedDataSchema<Nil, Nil, Nil> = DataSchemaBuilder::default()
        .number()
        .minimum(d(10.0))
        .exclusive_maximum(d(5.0))
        .into();
    assert_eq!(
        schema.subtype,
        Some(UncheckedDataSchemaSubtype::Number(NumberSchema {
            minimum: Some(Minimum::Inclusive(d(10.0))),
            maximum: Some(Maximum::Exclusive(d(5.0))),
            multiple_of: None,
        }))
    );
    assert_eq!(schema.check(), Err(Error::InvalidMinMax));
    let integer: UncheckedDataSchema<Nil, Nil, Nil> =
        DataSchemaBuilder::default().integer().minimum(10).exclusive_maximum(5).into();
    assert_eq!(integer.check(), Err(Error::InvalidMinMax));
}

#[test]
fn number_faults_come_in_their_order() {
    let both_exclusive =
        number(Some(Minimum::Exclusive(d(2.0))), Some(Maximum::Exclusive(d(2.0))));
    assert_eq!(both_exclusive.check(), Err(Error::InvalidMinMax));
    let boundary = number(Some(Minimum::Exclusive(d(2.0))), Some(Maximum::Inclusive(d(2.0))));
    assert_eq!(boundary.check(), Err(Error::InvalidMinMax));
    let point = number(Some(Minimum::Inclusive(d(2.0))), Some(Maximum::Inclusive(d(2.0))));
    assert_eq!(point.check(), Ok(()));
    let zeros = number(Some(Minimum::Inclusive(d(0.0))), Some(Maximum::Inclusive(d(-0.0))));
    assert_eq!(zeros.check(), Ok(()));
    let nan_first = NumberSchema {
        minimum: Some(Minimum::Inclusive(d(f64::NAN))),
        maximum: Some(Maximum::Inclusive(d(-1.0))),
        multiple_of: Some(d(-2.0)),
    };
    assert_eq!(nan_first.check(), Err(Error::NanMinMax));
    let range_before_step = NumberSchema {
        minimum: Some(Minimum::Inclusive(d(3.0))),
        maximum: Some(Maximum::Inclusive(d(-1.0))),
        multiple_of: Some(d(0.0)),
    };
    assert_eq!(range_before_step.check(), Err(Error::InvalidMinMax));
    for step in [0.0, -0.0, -2.0, f64::NEG_INFINITY] {
        let schema = NumberSchema { multiple_of: Some(d(step)), ..Default::default() };
        assert_eq!(schema.check(), Err(Error::InvalidMultipleOf), "{step}");
    }
    for step in [5e-324, 2.0, f64::INFINITY, f64::NAN] {
        let schema = NumberSchema { multiple_of: Some(d(step)), ..Default::default() };
        assert_eq!(schema.check(), Ok(()), "{step}");
    }
    assert_eq!(number(Some(Minimum::Exclusive(d(9.0))), None).check(), Ok(()));
}

#[test]
fn integer_bounds_are_checked() {
    let schema = |minimum, maximum| IntegerSchema { minimum, maximum, multiple_of: None };
    assert_eq!(
        schema(Some(Minimum::Inclusive(2)), Some(Maximum::Inclusive(2))).check(),
        Ok(())
    );
    assert_eq!(
        schema(Some(Minimum::Exclusive(2)), Some(Maximum::Exclusive(2))).check(),
        Err(Error::InvalidMinMax)
    );
    assert_eq!(
        schema(Some(Minimum::Inclusive(i64::MAX)), Some(Maximum::Inclusive(i64::MIN))).check(),
        Err(Error::InvalidMinMax)
    );
    assert_eq!(
        schema(Some(Minimum::Exclusive(i64::MIN)), Some(Maximum::Exclusive(i64::MAX))).check(),
        Ok(())
    );
    assert_eq!(schema(Some(Minimum::Inclusive(9)), None).check(), Ok(()));
}

#[test]
fn array_counts_are_checked() {
    let counts = |min_items, max_items| UncheckedArraySchema::<Nil, Nil, Nil> {
        items: None,
        min_items,
        max_items,
        other: Nil,
    };
    assert_eq!(counts(Some(5), Some(2)).check_counts(), Err(Error::InvalidMinMax));
    assert_eq!(counts(Some(2), Some(2)).check_counts(), Ok(()));
    assert_eq!(counts(Some(9), None).check_counts(), Ok(()));
    let schema: UncheckedDataSchema<Nil, Nil, Nil> =
        DataSchemaBuilder::default().vec().min_items(5).max_items(2).into();
    assert_eq!(schema.check(), Err(Error::InvalidMinMax));
}

#[test]
fn validation_reaches_the_item_of_a_valid_array() {
    let schema: UncheckedDataSchema<Nil, Nil, Nil> = DataSchemaBuilder::default()
        .vec()
        .min_items(1)
        .max_items(2)
        .set_item(|b| b.finish_extend().number().minimum(d(5.0)).maximum(d(1.0)))
        .into();
    assert_eq!(schema.check(), Err(Error::InvalidMinMax));
    let tuple: UncheckedDataSchema<Nil, Nil, Nil> = DataSchemaBuilder::default()
        .tuple()
        .append(|b| b.finish_extend().bool())
        .append(|b| b.finish_extend().number().multiple_of(d(-1.0)))
        .into();
    assert_eq!(tuple.check(), Err(Error::InvalidMultipleOf));
}

#[test]
fn validation_reaches_deep_and_wide_trees() {
    let mut schema = number_node(number(
        Some(Minimum::Inclusive(d(f64::NAN))),
        None,
    ));
    for _ in 0..2000 {
        schema = UncheckedDataSchema {
            subtype: Some(UncheckedDataSchemaSubtype::Array(UncheckedArraySchema {
                items: Some(BoxedElemOrVec::Elem(Box::new(schema))),
                min_items: None,
                max_items: None,
                other: Nil,
            })),
            ..Default::default()
        };
    }
    assert_eq!(schema.check(), Err(Error::NanMinMax));
    let mut members = Vec::new();
    for _ in 0..500 {
        members.push(number_node(NumberSchema::default()));
    }
    let wide = UncheckedDataSchema::<Nil, Nil, Nil> {
        one_of: Some(members),
        ..Default::default()
    };
    assert_eq!(wide.check(), Ok(()));
}

#[test]
fn validation_by_hand_reaches_properties_and_members() {
    let bad = || number_node(NumberSchema { multiple_of: Some(d(0.0)), ..Default::default() });
    let object = UncheckedDataSchema::<Nil, Nil, Nil> {
        subtype: Some(UncheckedDataSchemaSubtype::Object(UncheckedObjectSchema {
            properties: Some(OrderedMap {
                entries: vec![(s("fine"), number_node(NumberSchema::default())), (s("bad"), bad())],
            }),
            required: None,
            other: Nil,
        })),
        ..Default::default()
    };
    assert_eq!(object.check(), Err(Error::InvalidMultipleOf));
    let union = PartialDataSchema::<Nil, Nil, Nil> {
        one_of: Some(vec![number_node(NumberSchema::default()), bad()]),
        ..Default::default()
    };
    assert_eq!(union.check(), Err(Error::InvalidMultipleOf));
    let bare = UncheckedDataSchema::<Nil, Nil, Nil>::default();
    assert_eq!(bare.check(), Ok(()));
}

#[test]
fn object_properties_keep_order_and_required_names() {
    let schema: UncheckedDataSchema<Nil, Nil, Nil> = DataSchemaBuilder::default()
        .object()
        .property(s("a"), true, |b| b.finish_extend().bool())
        .property(s("b"), false, |b| b.finish_extend().null())
        .into();
    let boolean = UncheckedDataSchema {
        subtype: Some(UncheckedDataSchemaSubtype::Boolean),
        ..Default::default()
    };
    let null =
        UncheckedDataSchema { subtype: Some(UncheckedDataSchemaSubtype::Null), ..Default::default() };
    assert_eq!(
        schema.subtype,
        Some(UncheckedDataSchemaSubtype::Object(UncheckedObjectSchema {
            properties: Some(OrderedMap { entries: vec![(s("a"), boolean), (s("b"), null)] }),
            required: Some(vec![s("a")]),
            other: Nil,
        }))
    );
}

#[test]
fn object_property_that_is_named_again_takes_the_new_schema() {
    let schema: DataSchema<Nil, Nil, Nil> = DataSchemaBuilder::default()
        .object()
        .property(s("a"), false, |b| b.finish_extend().bool())
        .property(s("b"), false, |b| b.finish_extend().bool())
        .property(s("a"), true, |b| b.finish_extend().null())
        .try_into()
        .unwrap();
    assert_eq!(
        schema.subtype,
        Some(DataSchemaSubtype::Object(ObjectSchema {
            properties: Some(OrderedMap {
                entries: vec![
                    (
                        s("a"),
                        DataSchema { subtype: Some(DataSchemaSubtype::Null), ..Default::default() }
                    ),
                    (
                        s("b"),
                        DataSchema {
                            subtype: Some(DataSchemaSubtype::Boolean),
                            ..Default::default()
                        }
                    ),
                ]
            }),
            required: Some(vec![s("a")]),
            other: Nil,
        }))
    );
}

#[test]
fn tuple_always_has_items_and_list_at_most_one() {
    let tuple: UncheckedDataSchema<Nil, Nil, Nil> = DataSchemaBuilder::default().tuple().into();
    assert_eq!(
        tuple.subtype,
        Some(UncheckedDataSchemaSubtype::Array(UncheckedArraySchema {
            items: Some(BoxedElemOrVec::Vec(vec![])),
            min_items: None,
            max_items: None,
            other: Nil,
        }))
    );
    let list: UncheckedDataSchema<Nil, Nil, Nil> = DataSchemaBuilder::default().vec().into();
    assert_eq!(
        list.subtype,
        Some(UncheckedDataSchemaSubtype::Array(UncheckedArraySchema {
            items: None,
            min_items: None,
            max_items: None,
            other: Nil,
        }))
    );
    let replaced: DataSchema<Nil, Nil, Nil> = DataSchemaBuilder::default()
        .vec()
        .set_item(|b| b.finish_extend().bool())
        .set_item(|b| b.finish_extend().null())
        .try_into()
        .unwrap();
    assert_eq!(
        replaced.subtype,
        Some(DataSchemaSubtype::Array(ArraySchema {
            items: Some(BoxedElemOrVec::Elem(Box::new(DataSchema {
                subtype: Some(DataSchemaSubtype::Null),
                ..Default::default()
            }))),
            min_items: None,
            max_items: None,
            other: Nil,
        }))
    );
}

#[test]
fn union_of_a_partial_builder_keeps_its_members() {
    let schema: PartialDataSchema<Nil, Nil, Nil> = PartialDataSchemaBuilder::default()
        .one_of(|b| b.finish_extend().bool())
        .one_of(|b| b.finish_extend().null())
        .into();
    assert_eq!(
        schema.one_of,
        Some(vec![
            UncheckedDataSchema {
                subtype: Some(UncheckedDataSchemaSubtype::Boolean),
                ..Default::default()
            },
            UncheckedDataSchema {
                subtype: Some(UncheckedDataSchemaSubtype::Null),
                ..Default::default()
            },
        ])
    );
    assert_eq!(schema.subtype, None);
    assert_eq!(schema.enumeration, None);
}

#[test]
fn checked_conversion_does_not_validate() {
    let schema: DataSchema<Nil, Nil, Nil> = DataSchemaBuilder::default()
        .number()
        .minimum(d(10.0))
        .maximum(d(f64::NAN))
        .multiple_of(d(-1.0))
        .try_into()
        .unwrap();
    assert_eq!(
        schema.subtype,
        Some(DataSchemaSubtype::Number(NumberSchema {
            minimum: Some(Minimum::Inclusive(d(10.0))),
            maximum: Some(Maximum::Inclusive(d(f64::NAN))),
            multiple_of: Some(d(-1.0)),
        }))
    );
}

#[test]
fn checked_conversion_reports_the_first_bad_key_in_its_walk() {
    let bad = |key: &str| UncheckedDataSchema::<Nil, Nil, Nil> {
        titles: Some(MultiLanguageBuilder::default().add(s(key), s("text"))),
        ..Default::default()
    };
    let schema = UncheckedDataSchema::<Nil, Nil, Nil> {
        descriptions: Some(MultiLanguageBuilder::default().add(s("bad description"), s("x"))),
        one_of: Some(vec![bad("bad member")]),
        subtype: Some(UncheckedDataSchemaSubtype::Array(UncheckedArraySchema {
            items: Some(BoxedElemOrVec::Elem(Box::new(bad("bad item")))),
            min_items: None,
            max_items: None,
            other: Nil,
        })),
        ..Default::default()
    };
    assert_eq!(
        DataSchema::try_from(schema).unwrap_err(),
        Error::InvalidLanguageTag(s("bad description"))
    );
    let schema = UncheckedDataSchema::<Nil, Nil, Nil> {
        one_of: Some(vec![bad("en"), bad("bad member"), bad("worse member")]),
        subtype: Some(UncheckedDataSchemaSubtype::Array(UncheckedArraySchema {
            items: Some(BoxedElemOrVec::Elem(Box::new(bad("bad item")))),
            min_items: None,
            max_items: None,
            other: Nil,
        })),
        ..Default::default()
    };
    assert_eq!(
        DataSchema::try_from(schema).unwrap_err(),
        Error::InvalidLanguageTag(s("bad member"))
    );
    let schema = UncheckedDataSchema::<Nil, Nil, Nil> {
        subtype: Some(UncheckedDataSchemaSubtype::Object(UncheckedObjectSchema {
            properties: Some(OrderedMap {
                entries: vec![(s("p"), bad("it")), (s("q"), bad("bad property"))],
            }),
            required: None,
            other: Nil,
        })),
        ..Default::default()
    };
    assert_eq!(
        DataSchema::try_from(schema).unwrap_err(),
        Error::InvalidLanguageTag(s("bad property"))
    );
}

#[test]
fn extension_payloads_accumulate() {
    let list = Nil::cons(1u8).cons("two").cons(3.0f32);
    assert_eq!(list, Cons { head: 3.0f32, tail: Cons { head: "two", tail: Cons { head: 1u8, tail: Nil } } });
    assert_eq!(Nil.ext(7u8), Cons { head: 7u8, tail: Nil });
    assert_eq!(Nil.ext_with(|| 7u8).ext('x'), Cons { head: 'x', tail: Cons { head: 7u8, tail: Nil } });
    assert_eq!(<Cons<u8, Nil> as Extendable>::empty(), Nil);
    assert_eq!(<Nil as Extendable>::empty(), Nil);
}

#[test]
fn extending_drops_nothing_but_the_union_members() {
    let builder = DataSchemaBuilder::<Nil, Nil, Nil, _>::empty()
        .title(s("kept"))
        .unit(s("cm"))
        .ext(5u8)
        .ext_with(|| 'c')
        .finish_extend();
    assert_eq!(builder.partial.other, Cons { head: 'c', tail: Cons { head: 5u8, tail: Nil } });
    assert_eq!(builder.partial.unit, Some(s("cm")));
    assert_eq!(
        builder.info,
        HumanReadableInfo { title: Some(s("kept")), ..Default::default() }
    );
}

#[test]
fn coap_block_sizes_map_to_their_bytes() {
    let all = [
        (coap::BlockSize::Size16, 16u16),
        (coap::BlockSize::Size32, 32),
        (coap::BlockSize::Size64, 64),
        (coap::BlockSize::Size128, 128),
        (coap::BlockSize::Size256, 256),
        (coap::BlockSize::Size512, 512),
        (coap::BlockSize::Size1024, 1024),
    ];
    for (size, bytes) in all {
        assert_eq!(size.value(), bytes);
        assert_eq!(coap::BlockSize::from_value(bytes), Some(size));
    }
    for bytes in [0u16, 1, 15, 17, 48, 2048, u16::MAX] {
        assert_eq!(coap::BlockSize::from_value(bytes), None);
    }
}

#[test]
fn methods_have_their_names() {
    assert_eq!(coap::Method::Get.as_str(), "GET");
    assert_eq!(coap::Method::Put.as_str(), "PUT");
    assert_eq!(coap::Method::Post.as_str(), "POST");
    assert_eq!(coap::Method::Delete.as_str(), "DELETE");
    assert_eq!(coap::Method::Patch.as_str(), "PATCH");
    assert_eq!(coap::Method::Fetch.as_str(), "FETCH");
    assert_eq!(coap::Method::Ipatch.as_str(), "iPATCH");
    assert_eq!(http::Method::Get.as_str(), "GET");
    assert_eq!(http::Method::Put.as_str(), "PUT");
    assert_eq!(http::Method::Post.as_str(), "POST");
    assert_eq!(http::Method::Delete.as_str(), "DELETE");
    assert_eq!(http::Method::Patch.as_str(), "PATCH");
    assert_eq!(coap::Form::default().method, None);
    assert_eq!(http::Response::default().headers, vec![]);
}

#[test]
fn unsupported_kinds_have_their_words() {
    assert_eq!(Unsupported::Boolean.as_str(), "a boolean");
    assert_eq!(Unsupported::Integer.as_str(), "an integer");
    assert_eq!(Unsupported::Float.as_str(), "a float");
    assert_eq!(Unsupported::Char.as_str(), "a char");
    assert_eq!(Unsupported::String.as_str(), "a string");
    assert_eq!(Unsupported::ByteArray.as_str(), "a byte array");
    assert_eq!(Unsupported::UnitStruct.as_str(), "unit struct");
    assert_eq!(Unsupported::Sequence.as_str(), "a sequence");
    assert_eq!(Unsupported::Tuple.as_str(), "a tuple");
    assert_eq!(Unsupported::TupleStruct.as_str(), "a tuple struct");
    assert_eq!(Unsupported::Enum.as_str(), "an enum");
    assert_eq!(
        bad_type_message(Unsupported::Boolean),
        "can only flatten structs and maps (got a boolean)"
    );
    assert_eq!(
        bad_type_message(Unsupported::UnitStruct),
        "can only flatten structs and maps (got unit struct)"
    );
    let serializer: ContentSerializer<Error> = ContentSerializer::new();
    assert_eq!(serializer.error, std::marker::PhantomData);
}

#[test]
fn uri_variables_with_arrays_or_objects_are_found() {
    let plain = || -> UncheckedDataSchema<Nil, Nil, Nil> {
        DataSchemaBuilder::default().string().into()
    };
    let mut variables = OrderedMap::new();
    assert!(!uri_variables_contains_arrays_objects(&variables));
    variables.insert(s("a"), plain());
    variables.insert(s("b"), DataSchemaBuilder::default().bool().into());
    variables.insert(s("c"), UncheckedDataSchema::default());
    assert!(!uri_variables_contains_arrays_objects(&variables));
    let mut with_object = OrderedMap::new();
    with_object.insert(s("a"), plain());
    with_object.insert(s("o"), DataSchemaBuilder::default().object().into());
    assert!(uri_variables_contains_arrays_objects(&with_object));
    let mut with_array = OrderedMap::new();
    with_array.insert(s("t"), DataSchemaBuilder::default().tuple().into());
    with_array.insert(s("a"), plain());
    assert!(uri_variables_contains_arrays_objects(&with_array));
    let mut with_list: OrderedMap<UncheckedDataSchema<Nil, Nil, Nil>> = OrderedMap::new();
    with_list.insert(s("l"), DataSchemaBuilder::default().vec().into());
    assert!(uri_variables_contains_arrays_objects(&with_list));
}

#[test]
fn a_plain_builder_and_a_union_can_be_marked() {
    let enumeration: UncheckedDataSchema<Nil, Nil, Nil> = DataSchemaBuilder::default()
        .unit(s("cm"))
        .read_only()
        .enumeration(Value::from(1))
        .enumeration(Value::from(2))
        .into();
    assert_eq!(
        enumeration,
        UncheckedDataSchema {
            unit: Some(s("cm")),
            enumeration: Some(vec![Value::from(1), Value::from(2)]),
            read_only: true,
            write_only: false,
            ..Default::default()
        }
    );
    let union: PartialDataSchema<Nil, Nil, Nil> = PartialDataSchemaBuilder::default()
        .one_of(|b| b.finish_extend().bool())
        .write_only()
        .one_of(|b| b.finish_extend().null())
        .into();
    assert!(union.write_only);
    assert!(!union.read_only);
    assert_eq!(union.one_of.map(|members| members.len()), Some(2));
    let marked_first: UncheckedDataSchema<Nil, Nil, Nil> = DataSchemaBuilder::default()
        .write_only()
        .one_of(|b| b.finish_extend().string())
        .into();
    assert!(marked_first.write_only);
    assert!(!marked_first.read_only);
}

#[test]
fn the_first_member_that_is_not_valid_is_reported() {
    let fine = || number_node(NumberSchema::default());
    let bad_step = || number_node(NumberSchema { multiple_of: Some(d(0.0)), ..Default::default() });
    let bad_bound = || number_node(number(Some(Minimum::Inclusive(d(f64::NAN))), None));
    let bad_range =
        || number_node(number(Some(Minimum::Inclusive(d(2.0))), Some(Maximum::Inclusive(d(1.0)))));
    let members = vec![fine(), bad_step(), bad_bound(), bad_range()];
    assert_eq!(check_one_of_schema(Some(members.as_slice())), Err(Error::InvalidMultipleOf));
    let members = vec![bad_bound(), bad_step()];
    assert_eq!(check_one_of_schema(Some(members.as_slice())), Err(Error::NanMinMax));
    let members = vec![fine(), fine()];
    assert_eq!(check_one_of_schema(Some(members.as_slice())), Ok(()));
    assert_eq!(check_one_of_schema::<Nil, Nil, Nil>(Some(&[])), Ok(()));
    assert_eq!(check_one_of_schema::<Nil, Nil, Nil>(None), Ok(()));
}

#[test]
fn the_kind_is_checked_before_the_union() {
    let schema = UncheckedDataSchema::<Nil, Nil, Nil> {
        one_of: Some(vec![number_node(number(Some(Minimum::Inclusive(d(f64::NAN))), None))]),
        subtype: Some(UncheckedDataSchemaSubtype::Number(NumberSchema {
            multiple_of: Some(d(-1.0)),
            ..Default::default()
        })),
        ..Default::default()
    };
    assert_eq!(schema.check(), Err(Error::InvalidMultipleOf));
    let partial = PartialDataSchema::<Nil, Nil, Nil> {
        one_of: Some(vec![number_node(number(Some(Minimum::Inclusive(d(f64::NAN))), None))]),
        subtype: Some(UncheckedDataSchemaSubtype::Number(NumberSchema {
            multiple_of: Some(d(-1.0)),
            ..Default::default()
        })),
        ..Default::default()
    };
    assert_eq!(partial.check(), Err(Error::InvalidMultipleOf));
}

#[test]
fn the_walk_takes_the_schema_that_came_last_first() {
    let bad_step = || number_node(NumberSchema { multiple_of: Some(d(0.0)), ..Default::default() });
    let bad_bound = || number_node(number(Some(Minimum::Inclusive(d(f64::NAN))), None));
    let tuple = |items| {
        Some(UncheckedDataSchemaSubtype::<Nil, Nil, Nil>::Array(UncheckedArraySchema {
            items: Some(BoxedElemOrVec::Vec(items)),
            min_items: None,
            max_items: None,
            other: Nil,
        }))
    };
    assert_eq!(
        check_data_schema_subtype(&tuple(vec![bad_step(), bad_bound()])),
        Err(Error::NanMinMax)
    );
    assert_eq!(
        check_data_schema_subtype(&tuple(vec![bad_bound(), bad_step()])),
        Err(Error::InvalidMultipleOf)
    );
    let counts_first = Some(UncheckedDataSchemaSubtype::<Nil, Nil, Nil>::Array(
        UncheckedArraySchema {
            items: Some(BoxedElemOrVec::Elem(Box::new(bad_bound()))),
            min_items: Some(3),
            max_items: Some(1),
            other: Nil,
        },
    ));
    assert_eq!(check_data_schema_subtype(&counts_first), Err(Error::InvalidMinMax));
    let nested = UncheckedDataSchema::<Nil, Nil, Nil> {
        one_of: Some(vec![bad_step()]),
        subtype: tuple(vec![bad_bound()]),
        ..Default::default()
    };
    let outer = tuple(vec![nested]);
    assert_eq!(check_data_schema_subtype(&outer), Err(Error::NanMinMax));
    assert_eq!(check_data_schema_subtype::<Nil, Nil, Nil>(&None), Ok(()));
}

#[test]
fn partial_and_full_checks_report_the_same() {
    let bad_step = || number_node(NumberSchema { multiple_of: Some(d(0.0)), ..Default::default() });
    let bad_bound = || number_node(number(Some(Minimum::Inclusive(d(f64::NAN))), None));
    let kind = || {
        Some(UncheckedDataSchemaSubtype::<Nil, Nil, Nil>::Object(UncheckedObjectSchema {
            properties: Some(OrderedMap {
                entries: vec![(s("a"), number_node(NumberSchema::default()))],
            }),
            required: None,
            other: Nil,
        }))
    };
    let members = || Some(vec![number_node(NumberSchema::default()), bad_bound(), bad_step()]);
    let full = UncheckedDataSchema::<Nil, Nil, Nil> {
        title: Some(s("only here")),
        one_of: members(),
        subtype: kind(),
        ..Default::default()
    };
    let partial =
        PartialDataSchema::<Nil, Nil, Nil> { one_of: members(), subtype: kind(), ..Default::default() };
    assert_eq!(full.check(), Err(Error::NanMinMax));
    assert_eq!(partial.check(), full.check());
}
