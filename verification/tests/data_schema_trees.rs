use wot_schema::data_schema::{
    DataSchemaBuilder, IntegerDataSchemaBuilderLike, NumberDataSchemaBuilderLike,
    ObjectDataSchemaBuilderLike, PartialDataSchema, PartialDataSchemaBuilder,
    SpecializableDataSchema, StringDataSchemaBuilderLike, UncheckedDataSchema, UnionDataSchema,
    VecDataSchemaBuilderLike,
};
use wot_schema::error::Error;
use wot_schema::extend::Extend;
use wot_schema::hlist::{Cons, Nil};
use wot_schema::human_readable_info::BuildableHumanReadableInfo;
use wot_schema::lang::{LanguageTag, MultiLanguage, MultiLanguageBuilder};
use wot_schema::number::Double;
use wot_schema::ordered_map::OrderedMap;
use wot_schema::thing::{
    ArraySchema, BoxedElemOrVec, DataSchema, DataSchemaSubtype, IntegerSchema, Maximum, Minimum,
    NonZeroU64, NumberSchema, ObjectSchema, StringSchema, UncheckedArraySchema,
    UncheckedDataSchemaSubtype, UncheckedObjectSchema,
};

fn s(text: &str) -> String {
    text.to_string()
}

fn d(value: f64) -> Double {
    Double::from_bits(value.to_bits())
}

fn texts(pairs: &[(&str, &str)]) -> MultiLanguage {
    let mut map = MultiLanguage::new();
    for (tag, text) in pairs {
        map.insert(LanguageTag::parse(tag).unwrap(), text.to_string());
    }
    map
}

#[test]
fn object_with_content() {
    let data_schema: DataSchema<Nil, Nil, Nil> = DataSchemaBuilder::default()
        .object()
        .property(s("hello"), false, |b| b.finish_extend().bool())
        .property(s("world"), true, |b| b.title(s("title")).finish_extend().number())
        .try_into()
        .unwrap();
    assert_eq!(
        data_schema,
        DataSchema {
            attype: None,
            title: None,
            titles: None,
            description: None,
            descriptions: None,
            constant: None,
            default: None,
            unit: None,
            one_of: None,
            enumeration: None,
            read_only: false,
            write_only: false,
            format: None,
            subtype: Some(DataSchemaSubtype::Object(ObjectSchema {
                properties: Some(OrderedMap { entries: vec![
                        (
                            "hello".to_string(),
                            DataSchema {
                                attype: None,
                                title: None,
                                titles: None,
                                description: None,
                                descriptions: None,
                                constant: None,
                                default: None,
                                unit: None,
                                one_of: None,
                                enumeration: None,
                                read_only: false,
                                write_only: false,
                                format: None,
                                subtype: Some(DataSchemaSubtype::Boolean),
                                other: Nil,
                            }
                        ),
                        (
                            "world".to_string(),
                            DataSchema {
                                attype: None,
                                title: Some("title".to_string()),
                                titles: None,
                                description: None,
                                descriptions: None,
                                constant: None,
                                default: None,
                                unit: None,
                                one_of: None,
                                enumeration: None,
                                read_only: false,
                                write_only: false,
                                format: None,
                                subtype: Some(DataSchemaSubtype::Number(NumberSchema {
                                    maximum: None,
                                    minimum: None,
                                    multiple_of: None,
                                })),
                                other: Nil,
                            }
                        )
                    ] }),
                required: Some(vec!["world".to_string()]),
                other: Nil,
            })),
            other: Nil,
        }
    );
}

#[test]
fn object_partial_with_content() {
    let data_schema: PartialDataSchema<Nil, Nil, Nil> = PartialDataSchemaBuilder::default()
        .object()
        .property(s("hello"), false, |b| b.finish_extend().bool())
        .property(s("world"), true, |b| b.finish_extend().title(s("title")).number())
        .try_into()
        .unwrap();
    assert_eq!(
        data_schema,
        PartialDataSchema {
            constant: None,
            default: None,
            unit: None,
            one_of: None,
            enumeration: None,
            read_only: false,
            write_only: false,
            format: None,
            subtype: Some(UncheckedDataSchemaSubtype::Object(UncheckedObjectSchema {
                properties: Some(OrderedMap { entries: vec![
                        (
                            "hello".to_string(),
                            UncheckedDataSchema {
                                attype: None,
                                title: None,
                                titles: None,
                                description: None,
                                descriptions: None,
                                constant: None,
                                default: None,
                                unit: None,
                                one_of: None,
                                enumeration: None,
                                read_only: false,
                                write_only: false,
                                format: None,
                                subtype: Some(UncheckedDataSchemaSubtype::Boolean),
                                other: Nil,
                            }
                        ),
                        (
                            "world".to_string(),
                            UncheckedDataSchema {
                                attype: None,
                                title: Some("title".to_string()),
                                titles: None,
                                description: None,
                                descriptions: None,
                                constant: None,
                                default: None,
                                unit: None,
                                one_of: None,
                                enumeration: None,
                                read_only: false,
                                write_only: false,
                                format: None,
                                subtype: Some(UncheckedDataSchemaSubtype::Number(
                                    NumberSchema {
                                        maximum: None,
                                        minimum: None,
                                        multiple_of: None,
                                    }
                                )),
                                other: Nil,
                            }
                        )
                    ] }),
                required: Some(vec!["world".to_string()]),
                other: Nil,
            })),
            other: Nil,
        }
    );
}

#[test]
fn integer_with_data() {
    let data_schema: DataSchema<Nil, Nil, Nil> = DataSchemaBuilder::default()
        .integer()
        .exclusive_minimum(10)
        .maximum(5)
        .multiple_of(NonZeroU64::new(2).unwrap())
        .try_into()
        .unwrap();
    assert_eq!(
        data_schema,
        DataSchema {
            attype: None,
            title: None,
            titles: None,
            description: None,
            descriptions: None,
            constant: None,
            default: None,
            unit: None,
            one_of: None,
            enumeration: None,
            read_only: false,
            write_only: false,
            format: None,
            subtype: Some(DataSchemaSubtype::Integer(IntegerSchema {
                maximum: Some(Maximum::Inclusive(5)),
                minimum: Some(Minimum::Exclusive(10)),
                multiple_of: Some(NonZeroU64::new(2).unwrap()),
            })),
            other: Nil,
        },
    );

    let data_schema: DataSchema<Nil, Nil, Nil> = DataSchemaBuilder::default()
        .integer()
        .minimum(10)
        .exclusive_maximum(5)
        .try_into()
        .unwrap();
    assert_eq!(
        data_schema,
        DataSchema {
            attype: None,
            title: None,
            titles: None,
            description: None,
            descriptions: None,
            constant: None,
            default: None,
            unit: None,
            one_of: None,
            enumeration: None,
            read_only: false,
            write_only: false,
            format: None,
            subtype: Some(DataSchemaSubtype::Integer(IntegerSchema {
                maximum: Some(Maximum::Exclusive(5)),
                minimum: Some(Minimum::Inclusive(10)),
                multiple_of: None,
            })),
            other: Nil,
        },
    );
}

#[test]
fn number_with_data() {
    let data_schema: DataSchema<Nil, Nil, Nil> = DataSchemaBuilder::default()
        .number()
        .exclusive_minimum(d(10.))
        .maximum(d(5.))
        .multiple_of(d(2.))
        .try_into()
        .unwrap();
    assert_eq!(
        data_schema,
        DataSchema {
            attype: None,
            title: None,
            titles: None,
            description: None,
            descriptions: None,
            constant: None,
            default: None,
            unit: None,
            one_of: None,
            enumeration: None,
            read_only: false,
            write_only: false,
            format: None,
            subtype: Some(DataSchemaSubtype::Number(NumberSchema {
                maximum: Some(Maximum::Inclusive(d(5.))),
                minimum: Some(Minimum::Exclusive(d(10.))),
                multiple_of: Some(d(2.)),
            })),
            other: Nil,
        },
    );

    let data_schema: DataSchema<Nil, Nil, Nil> = DataSchemaBuilder::default()
        .number()
        .minimum(d(10.))
        .exclusive_maximum(d(5.))
        .multiple_of(d(2.))
        .try_into()
        .unwrap();
    assert_eq!(
        data_schema,
        DataSchema {
            attype: None,
            title: None,
            titles: None,
            description: None,
            descriptions: None,
            constant: None,
            default: None,
            unit: None,
            one_of: None,
            enumeration: None,
            read_only: false,
            write_only: false,
            format: None,
            subtype: Some(DataSchemaSubtype::Number(NumberSchema {
                maximum: Some(Maximum::Exclusive(d(5.))),
                minimum: Some(Minimum::Inclusive(d(10.))),
                multiple_of: Some(d(2.)),
            })),
            other: Nil,
        },
    );
}

#[test]
fn string_with_data() {
    let data_schema: DataSchema<Nil, Nil, Nil> = DataSchemaBuilder::default()
        .string()
        .min_length(5)
        .max_length(32)
        .pattern(s("pattern"))
        .content_encoding(s("content encoding"))
        .content_media_type(s("content media type"))
        .try_into()
        .unwrap();
    assert_eq!(
        data_schema,
        DataSchema {
            attype: None,
            title: None,
            titles: None,
            description: None,
            descriptions: None,
            constant: None,
            default: None,
            unit: None,
            one_of: None,
            enumeration: None,
            read_only: false,
            write_only: false,
            format: None,
            subtype: Some(DataSchemaSubtype::String(StringSchema {
                min_length: Some(5),
                max_length: Some(32),
                pattern: Some("pattern".to_string()),
                content_encoding: Some("content encoding".to_string()),
                content_media_type: Some("content media type".to_string()),
            })),
            other: Nil,
        },
    );
}

#[test]
fn one_of_simple() {
    let data_schema: DataSchema<Nil, Nil, Nil> = DataSchemaBuilder::default()
        .one_of(|b| b.finish_extend().number())
        .one_of(|b| b.finish_extend().integer())
        .one_of(|b| b.finish_extend().string())
        .try_into()
        .unwrap();
    assert_eq!(
        data_schema,
        DataSchema {
            attype: None,
            title: None,
            titles: None,
            description: None,
            descriptions: None,
            constant: None,
            default: None,
            unit: None,
            one_of: Some(vec![
                DataSchema {
                    attype: None,
                    title: None,
                    titles: None,
                    description: None,
                    descriptions: None,
                    constant: None,
                    default: None,
                    unit: None,
                    one_of: None,
                    enumeration: None,
                    read_only: false,
                    write_only: false,
                    format: None,
                    subtype: Some(DataSchemaSubtype::Number(NumberSchema {
                        maximum: None,
                        minimum: None,
                        multiple_of: None,
                    })),
                    other: Nil,
                },
                DataSchema {
                    attype: None,
                    title: None,
                    titles: None,
                    description: None,
                    descriptions: None,
                    constant: None,
                    default: None,
                    unit: None,
                    one_of: None,
                    enumeration: None,
                    read_only: false,
                    write_only: false,
                    format: None,
                    subtype: Some(DataSchemaSubtype::Integer(IntegerSchema {
                        maximum: None,
                        minimum: None,
                        multiple_of: None,
                    })),
                    other: Nil,
                },
                DataSchema {
                    attype: None,
                    title: None,
                    titles: None,
                    description: None,
                    descriptions: None,
                    constant: None,
                    default: None,
                    unit: None,
                    one_of: None,
                    enumeration: None,
                    read_only: false,
                    write_only: false,
                    format: None,
                    subtype: Some(DataSchemaSubtype::String(StringSchema {
                        min_length: None,
                        max_length: None,
                        pattern: None,
                        content_encoding: None,
                        content_media_type: None,
                    })),
                    other: Nil,
                },
            ]),
            enumeration: None,
            read_only: false,
            write_only: false,
            format: None,
            subtype: None,
            other: Nil,
        },
    );
}

#[test]
fn one_of_nested() {
    let data_schema: DataSchema<Nil, Nil, Nil> = DataSchemaBuilder::default()
        .object()
        .property(s("hello"), true, |b| {
            b.finish_extend()
                .one_of(|b| b.finish_extend().string())
                .one_of(|b| b.finish_extend().integer())
        })
        .try_into()
        .unwrap();
    assert_eq!(
        data_schema,
        DataSchema {
            attype: None,
            title: None,
            titles: None,
            description: None,
            descriptions: None,
            constant: None,
            default: None,
            unit: None,
            one_of: None,
            enumeration: None,
            read_only: false,
            write_only: false,
            format: None,
            subtype: Some(DataSchemaSubtype::Object(ObjectSchema {
                properties: Some(OrderedMap { entries: vec![(
                        "hello".to_string(),
                        DataSchema {
                            attype: None,
                            title: None,
                            titles: None,
                            description: None,
                            descriptions: None,
                            constant: None,
                            default: None,
                            unit: None,
                            one_of: Some(vec![
                                DataSchema {
                                    attype: None,
                                    title: None,
                                    titles: None,
                                    description: None,
                                    descriptions: None,
                                    constant: None,
                                    default: None,
                                    unit: None,
                                    one_of: None,
                                    enumeration: None,
                                    read_only: false,
                                    write_only: false,
                                    format: None,
                                    subtype: Some(DataSchemaSubtype::String(StringSchema {
                                        min_length: None,
                                        max_length: None,
                                        pattern: None,
                                        content_encoding: None,
                                        content_media_type: None,
                                    })),
                                    other: Nil,
                                },
                                DataSchema {
                                    attype: None,
                                    title: None,
                                    titles: None,
                                    description: None,
                                    descriptions: None,
                                    constant: None,
                                    default: None,
                                    unit: None,
                                    one_of: None,
                                    enumeration: None,
                                    read_only: false,
                                    write_only: false,
                                    format: None,
                                    subtype: Some(DataSchemaSubtype::Integer(IntegerSchema {
                                        maximum: None,
                                        minimum: None,
                                        multiple_of: None,
                                    })),
                                    other: Nil,
                                },
                            ]),
                            enumeration: None,
                            read_only: false,
                            write_only: false,
                            format: None,
                            subtype: None,
                            other: Nil,
                        }
                    ),] }),
                required: Some(vec!["hello".to_string()]),
                other: Nil,
            })),
            other: Nil,
        },
    );
}

#[test]
fn check_valid_data_schema() {
    let data_schema: UncheckedDataSchema<Nil, Nil, Nil> = DataSchemaBuilder::default()
        .one_of(|b| {
            b.finish_extend()
                .vec()
                .min_items(2)
                .max_items(5)
                .set_item(|b| {
                    b.finish_extend()
                        .one_of(|b| {
                            b.finish_extend()
                                .number()
                                .minimum(d(0.))
                                .maximum(d(5.))
                                .multiple_of(d(2.))
                        })
                        .one_of(|b| b.finish_extend().integer().minimum(5).maximum(10))
                })
        })
        .one_of(|b| {
            b.finish_extend()
                .number()
                .minimum(d(20.))
                .maximum(d(42.))
                .multiple_of(d(7.))
        })
        .one_of(|b| {
            b.finish_extend().object().property(s("a"), false, |b| {
                b.finish_extend().integer().minimum(10).maximum(20)
            })
        })
        .into();

    assert!(data_schema.check().is_ok());
}

#[test]
fn check_invalid_data_schema() {
    let data_schema: UncheckedDataSchema<Nil, Nil, Nil> = DataSchemaBuilder::default()
        .one_of(|b| {
            b.finish_extend()
                .vec()
                .min_items(5)
                .max_items(2)
                .set_item(|b| {
                    b.finish_extend()
                        .one_of(|b| b.finish_extend().number().minimum(d(0.)).maximum(d(5.)))
                        .one_of(|b| b.finish_extend().integer().minimum(5).maximum(10))
                })
        })
        .one_of(|b| b.finish_extend().number().minimum(d(20.)).maximum(d(42.)))
        .one_of(|b| {
            b.finish_extend().object().property(s("a"), false, |b| {
                b.finish_extend().integer().minimum(10).maximum(20)
            })
        })
        .into();

    assert_eq!(data_schema.check().unwrap_err(), Error::InvalidMinMax);

    let data_schema: UncheckedDataSchema<Nil, Nil, Nil> = DataSchemaBuilder::default()
        .one_of(|b| {
            b.finish_extend()
                .vec()
                .min_items(2)
                .max_items(5)
                .set_item(|b| {
                    b.finish_extend()
                        .one_of(|b| b.finish_extend().number().minimum(d(5.)).maximum(d(0.)))
                        .one_of(|b| b.finish_extend().integer().minimum(5).maximum(10))
                })
        })
        .one_of(|b| b.finish_extend().number().minimum(d(20.)).maximum(d(42.)))
        .one_of(|b| {
            b.finish_extend().object().property(s("a"), false, |b| {
                b.finish_extend().integer().minimum(10).maximum(20)
            })
        })
        .into();

    assert_eq!(data_schema.check().unwrap_err(), Error::InvalidMinMax);

    let data_schema: UncheckedDataSchema<Nil, Nil, Nil> = DataSchemaBuilder::default()
        .one_of(|b| {
            b.finish_extend()
                .vec()
                .min_items(2)
                .max_items(5)
                .set_item(|b| {
                    b.finish_extend()
                        .one_of(|b| b.finish_extend().number().minimum(d(0.)).maximum(d(5.)))
                        .one_of(|b| b.finish_extend().integer().minimum(10).maximum(5))
                })
        })
        .one_of(|b| b.finish_extend().number().minimum(d(20.)).maximum(d(42.)))
        .one_of(|b| {
            b.finish_extend().object().property(s("a"), false, |b| {
                b.finish_extend().integer().minimum(10).maximum(20)
            })
        })
        .into();

    assert_eq!(data_schema.check().unwrap_err(), Error::InvalidMinMax);

    let data_schema: UncheckedDataSchema<Nil, Nil, Nil> = DataSchemaBuilder::default()
        .one_of(|b| {
            b.finish_extend()
                .vec()
                .min_items(2)
                .max_items(5)
                .set_item(|b| {
                    b.finish_extend()
                        .one_of(|b| b.finish_extend().number().minimum(d(0.)).maximum(d(5.)))
                        .one_of(|b| b.finish_extend().integer().minimum(5).maximum(10))
                })
        })
        .one_of(|b| b.finish_extend().number().minimum(d(42.)).maximum(d(20.)))
        .one_of(|b| {
            b.finish_extend().object().property(s("a"), false, |b| {
                b.finish_extend().integer().minimum(10).maximum(20)
            })
        })
        .into();

    assert_eq!(data_schema.check().unwrap_err(), Error::InvalidMinMax);

    let data_schema: UncheckedDataSchema<Nil, Nil, Nil> = DataSchemaBuilder::default()
        .one_of(|b| {
            b.finish_extend()
                .vec()
                .min_items(2)
                .max_items(5)
                .set_item(|b| {
                    b.finish_extend()
                        .one_of(|b| b.finish_extend().number().minimum(d(0.)).maximum(d(5.)))
                        .one_of(|b| b.finish_extend().integer().minimum(5).maximum(10))
                })
        })
        .one_of(|b| b.finish_extend().number().minimum(d(20.)).maximum(d(f64::NAN)))
        .one_of(|b| {
            b.finish_extend().object().property(s("a"), false, |b| {
                b.finish_extend().integer().minimum(10).maximum(20)
            })
        })
        .into();

    assert_eq!(data_schema.check().unwrap_err(), Error::NanMinMax);

    let data_schema: UncheckedDataSchema<Nil, Nil, Nil> = DataSchemaBuilder::default()
        .one_of(|b| {
            b.finish_extend()
                .vec()
                .min_items(2)
                .max_items(5)
                .set_item(|b| {
                    b.finish_extend()
                        .one_of(|b| b.finish_extend().number().minimum(d(0.)).maximum(d(5.)))
                        .one_of(|b| b.finish_extend().integer().minimum(5).maximum(10))
                })
        })
        .one_of(|b| b.finish_extend().number().minimum(d(f64::NAN)).maximum(d(42.)))
        .one_of(|b| {
            b.finish_extend().object().property(s("a"), false, |b| {
                b.finish_extend().integer().minimum(10).maximum(20)
            })
        })
        .into();

    assert_eq!(data_schema.check().unwrap_err(), Error::NanMinMax);

    let data_schema: UncheckedDataSchema<Nil, Nil, Nil> = DataSchemaBuilder::default()
        .one_of(|b| {
            b.finish_extend()
                .vec()
                .min_items(2)
                .max_items(5)
                .set_item(|b| {
                    b.finish_extend()
                        .one_of(|b| b.finish_extend().number().minimum(d(0.)).maximum(d(5.)))
                        .one_of(|b| b.finish_extend().integer().minimum(5).maximum(10))
                })
        })
        .one_of(|b| b.finish_extend().number().minimum(d(20.)).maximum(d(42.)))
        .one_of(|b| {
            b.finish_extend().object().property(s("a"), false, |b| {
                b.finish_extend().integer().minimum(20).maximum(10)
            })
        })
        .into();

    assert_eq!(data_schema.check().unwrap_err(), Error::InvalidMinMax);

    let data_schema: UncheckedDataSchema<Nil, Nil, Nil> = DataSchemaBuilder::default()
        .one_of(|b| {
            b.finish_extend()
                .vec()
                .min_items(2)
                .max_items(5)
                .set_item(|b| {
                    b.finish_extend()
                        .one_of(|b| b.finish_extend().number().minimum(d(0.)).maximum(d(5.)))
                        .one_of(|b| b.finish_extend().integer().minimum(5).maximum(10))
                })
        })
        .one_of(|b| b.finish_extend().number().minimum(d(20.)).maximum(d(42.)))
        .one_of(|b| {
            b.finish_extend()
                .object()
                .property(s("a"), false, |b| {
                    b.finish_extend().integer().minimum(10).maximum(20)
                })
                .property(s("b"), false, |b| {
                    b.finish_extend().integer().minimum(20).maximum(10)
                })
        })
        .into();

    assert_eq!(data_schema.check().unwrap_err(), Error::InvalidMinMax);

    let data_schema: UncheckedDataSchema<Nil, Nil, Nil> = DataSchemaBuilder::default()
        .one_of(|b| {
            b.finish_extend()
                .vec()
                .min_items(2)
                .max_items(5)
                .set_item(|b| {
                    b.finish_extend()
                        .one_of(|b| b.finish_extend().number().minimum(d(0.)).maximum(d(5.)))
                        .one_of(|b| b.finish_extend().integer().minimum(5).maximum(10))
                })
        })
        .one_of(|b| b.finish_extend().number().minimum(d(20.)).maximum(d(42.)))
        .one_of(|b| {
            b.finish_extend().object().property(s("a"), false, |b| {
                b.finish_extend().integer().minimum(10).maximum(20)
            })
        })
        .one_of(|b| {
            b.finish_extend()
                .one_of(|b| b.finish_extend().number().minimum(d(20.)).maximum(d(10.)))
        })
        .into();

    assert_eq!(data_schema.check().unwrap_err(), Error::InvalidMinMax);

    let data_schema: UncheckedDataSchema<Nil, Nil, Nil> = DataSchemaBuilder::default()
        .one_of(|b| {
            b.finish_extend()
                .vec()
                .min_items(2)
                .max_items(5)
                .set_item(|b| {
                    b.finish_extend()
                        .one_of(|b| {
                            b.finish_extend()
                                .one_of(|b| b.finish_extend().number().minimum(d(5.)).maximum(d(0.)))
                        })
                        .one_of(|b| b.finish_extend().integer().minimum(5).maximum(10))
                })
        })
        .one_of(|b| b.finish_extend().number().minimum(d(20.)).maximum(d(42.)))
        .one_of(|b| {
            b.finish_extend().object().property(s("a"), false, |b| {
                b.finish_extend().integer().minimum(10).maximum(20)
            })
        })
        .into();

    assert_eq!(data_schema.check().unwrap_err(), Error::InvalidMinMax);
}

#[test]
fn check_invalid_data_schema_with_complex_minmax() {
    let data_schema: UncheckedDataSchema<Nil, Nil, Nil> = DataSchemaBuilder::default()
        .integer()
        .exclusive_minimum(2)
        .maximum(2)
        .into();

    assert_eq!(data_schema.check().unwrap_err(), Error::InvalidMinMax);

    let data_schema: UncheckedDataSchema<Nil, Nil, Nil> = DataSchemaBuilder::default()
        .integer()
        .minimum(2)
        .exclusive_maximum(2)
        .into();

    assert_eq!(data_schema.check().unwrap_err(), Error::InvalidMinMax);

    let data_schema: UncheckedDataSchema<Nil, Nil, Nil> = DataSchemaBuilder::default()
        .number()
        .exclusive_minimum(d(2.))
        .maximum(d(2.))
        .into();

    assert_eq!(data_schema.check().unwrap_err(), Error::InvalidMinMax);

    let data_schema: UncheckedDataSchema<Nil, Nil, Nil> = DataSchemaBuilder::default()
        .number()
        .minimum(d(2.))
        .exclusive_maximum(d(2.))
        .into();

    assert_eq!(data_schema.check().unwrap_err(), Error::InvalidMinMax);
}

#[test]
fn check_invalid_data_schema_multiple_of() {
    let data_schema: UncheckedDataSchema<Nil, Nil, Nil> = DataSchemaBuilder::default()
        .vec()
        .set_item(|b| b.finish_extend().number().multiple_of(d(0.)))
        .into();

    assert_eq!(data_schema.check().unwrap_err(), Error::InvalidMultipleOf);

    let data_schema: UncheckedDataSchema<Nil, Nil, Nil> = DataSchemaBuilder::default()
        .vec()
        .set_item(|b| b.finish_extend().number().multiple_of(d(-2.)))
        .into();

    assert_eq!(data_schema.check().unwrap_err(), Error::InvalidMultipleOf);
}

#[test]
fn check_valid_partial_data_schema() {
    let data_schema: PartialDataSchema<Nil, Nil, Nil> = PartialDataSchemaBuilder::default()
        .one_of(|b| {
            b.finish_extend()
                .vec()
                .min_items(2)
                .max_items(5)
                .set_item(|b| {
                    b.finish_extend()
                        .one_of(|b| {
                            b.finish_extend()
                                .number()
                                .minimum(d(0.))
                                .maximum(d(5.))
                                .multiple_of(d(2.))
                        })
                        .one_of(|b| b.finish_extend().integer().minimum(5).maximum(10))
                })
        })
        .one_of(|b| {
            b.finish_extend()
                .number()
                .minimum(d(20.))
                .maximum(d(42.))
                .multiple_of(d(3.))
        })
        .one_of(|b| {
            b.finish_extend().object().property(s("a"), false, |b| {
                b.finish_extend().integer().minimum(10).maximum(20)
            })
        })
        .into();

    assert!(data_schema.check().is_ok());
}

#[derive(Debug, PartialEq)]
struct A(i32);
#[derive(Debug, PartialEq)]
struct B(String);

#[derive(Debug, PartialEq)]
struct DataSchemaExtA {
    a: A,
}

#[derive(Debug, PartialEq)]
struct ArraySchemaExtA {
    b: A,
}

#[derive(Debug, PartialEq)]
struct ObjectSchemaExtA {
    c: A,
}

#[derive(Debug, PartialEq)]
struct DataSchemaExtB {
    d: B,
}

#[derive(Debug, PartialEq)]
struct ArraySchemaExtB {
    e: B,
}

#[derive(Debug, PartialEq)]
struct ObjectSchemaExtB {
    f: B,
}

type DataExt = Cons<DataSchemaExtB, Cons<DataSchemaExtA, Nil>>;
type ArrayExt = Cons<ArraySchemaExtB, Cons<ArraySchemaExtA, Nil>>;
type ObjectExt = Cons<ObjectSchemaExtB, Cons<ObjectSchemaExtA, Nil>>;

#[test]
fn extend_data_schema() {
    let data_schema: DataSchema<DataExt, ArrayExt, ObjectExt> =
        DataSchemaBuilder::<DataExt, _, _, _>::empty()
            .ext(DataSchemaExtA { a: A(1) })
            .ext_with(|| DataSchemaExtB {
                d: B("hello".to_string()),
            })
            .finish_extend()
            .title(s("title"))
            .null()
            .try_into()
            .unwrap();

    assert_eq!(
        data_schema,
        DataSchema {
            title: Some("title".to_string()),
            other: Nil::cons(DataSchemaExtA { a: A(1) }).cons(DataSchemaExtB {
                d: B("hello".to_string())
            }),
            attype: Default::default(),
            titles: Default::default(),
            description: Default::default(),
            descriptions: Default::default(),
            constant: Default::default(),
            default: Default::default(),
            unit: Default::default(),
            one_of: Default::default(),
            enumeration: Default::default(),
            read_only: Default::default(),
            write_only: Default::default(),
            format: Default::default(),
            subtype: Some(DataSchemaSubtype::Null),
        }
    );
}

#[test]
fn extend_data_schema_with_vec() {
    let data_schema: DataSchema<DataExt, ArrayExt, ObjectExt> =
        DataSchemaBuilder::<
            DataExt,
            ArrayExt,
            _,
            _,
        >::empty()
        .ext(DataSchemaExtA { a: A(1) })
        .ext_with(|| DataSchemaExtB {
            d: B("hello".to_string()),
        })
        .finish_extend()
        .title(s("title"))
        .vec_ext(|b| {
            b.ext(ArraySchemaExtA { b: A(2) })
                .ext_with(|| ArraySchemaExtB {
                    e: B("world".to_string()),
                })
        })
        .max_items(10)
        .try_into()
        .unwrap();

    assert_eq!(
        data_schema,
        DataSchema {
            title: Some("title".to_string()),
            other: Nil::cons(DataSchemaExtA { a: A(1) }).cons(DataSchemaExtB {
                d: B("hello".to_string())
            }),
            attype: Default::default(),
            titles: Default::default(),
            description: Default::default(),
            descriptions: Default::default(),
            constant: Default::default(),
            default: Default::default(),
            unit: Default::default(),
            one_of: Default::default(),
            enumeration: Default::default(),
            read_only: Default::default(),
            write_only: Default::default(),
            format: Default::default(),
            subtype: Some(DataSchemaSubtype::Array(ArraySchema {
                other: Nil::cons(ArraySchemaExtA { b: A(2) }).cons(ArraySchemaExtB {
                    e: B("world".to_string())
                }),
                max_items: Some(10),
                items: Default::default(),
                min_items: Default::default(),
            })),
        }
    );
}

#[test]
fn extend_data_schema_with_tuple() {
    let data_schema: DataSchema<DataExt, ArrayExt, ObjectExt> =
        DataSchemaBuilder::<
            DataExt,
            ArrayExt,
            _,
            _,
        >::empty()
        .ext(DataSchemaExtA { a: A(1) })
        .ext_with(|| DataSchemaExtB {
            d: B("hello".to_string()),
        })
        .finish_extend()
        .title(s("title"))
        .tuple_ext(|b| {
            b.ext(ArraySchemaExtA { b: A(2) })
                .ext_with(|| ArraySchemaExtB {
                    e: B("world".to_string()),
                })
        })
        .try_into()
        .unwrap();

    assert_eq!(
        data_schema,
        DataSchema {
            title: Some("title".to_string()),
            other: Nil::cons(DataSchemaExtA { a: A(1) }).cons(DataSchemaExtB {
                d: B("hello".to_string())
            }),
            attype: Default::default(),
            titles: Default::default(),
            description: Default::default(),
            descriptions: Default::default(),
            constant: Default::default(),
            default: Default::default(),
            unit: Default::default(),
            one_of: Default::default(),
            enumeration: Default::default(),
            read_only: Default::default(),
            write_only: Default::default(),
            format: Default::default(),
            subtype: Some(DataSchemaSubtype::Array(ArraySchema {
                other: Nil::cons(ArraySchemaExtA { b: A(2) }).cons(ArraySchemaExtB {
                    e: B("world".to_string())
                }),
                items: Some(BoxedElemOrVec::Vec(Vec::new())),
                max_items: Default::default(),
                min_items: Default::default(),
            })),
        }
    );
}

#[test]
fn extend_data_schema_with_object() {
    let data_schema: DataSchema<DataExt, ArrayExt, ObjectExt> =
        DataSchemaBuilder::<
            DataExt,
            _,
            ObjectExt,
            _,
        >::empty()
        .ext(DataSchemaExtA { a: A(1) })
        .ext_with(|| DataSchemaExtB {
            d: B("hello".to_string()),
        })
        .finish_extend()
        .title(s("title"))
        .object_ext(|b| {
            b.ext(ObjectSchemaExtA { c: A(2) })
                .ext_with(|| ObjectSchemaExtB {
                    f: B("world".to_string()),
                })
        })
        .property(s("x"), false, |b| {
            b.ext(DataSchemaExtA { a: A(3) })
                .ext(DataSchemaExtB {
                    d: B("other".to_string()),
                })
                .finish_extend()
                .null()
        })
        .try_into()
        .unwrap();

    assert_eq!(
        data_schema,
        DataSchema {
            title: Some("title".to_string()),
            other: Nil::cons(DataSchemaExtA { a: A(1) }).cons(DataSchemaExtB {
                d: B("hello".to_string())
            }),
            subtype: Some(DataSchemaSubtype::Object(ObjectSchema {
                other: Nil::cons(ObjectSchemaExtA { c: A(2) }).cons(ObjectSchemaExtB {
                    f: B("world".to_string())
                }),
                properties: Some(OrderedMap { entries: vec![(
                        "x".to_string(),
                        DataSchema {
                            other: Nil::cons(DataSchemaExtA { a: A(3) }).cons(DataSchemaExtB {
                                d: B("other".to_string())
                            }),
                            subtype: Some(DataSchemaSubtype::Null),
                            attype: Default::default(),
                            title: Default::default(),
                            titles: Default::default(),
                            description: Default::default(),
                            descriptions: Default::default(),
                            constant: Default::default(),
                            default: Default::default(),
                            unit: Default::default(),
                            one_of: Default::default(),
                            enumeration: Default::default(),
                            read_only: Default::default(),
                            write_only: Default::default(),
                            format: Default::default(),
                        }
                    )] }),
                required: None,
            })),
            attype: Default::default(),
            titles: Default::default(),
            description: Default::default(),
            descriptions: Default::default(),
            constant: Default::default(),
            default: Default::default(),
            unit: Default::default(),
            one_of: Default::default(),
            enumeration: Default::default(),
            read_only: Default::default(),
            write_only: Default::default(),
            format: Default::default(),
        }
    );
}

#[test]
fn valid_unchecked_tuple_data_schema() {
    let data_schema = UncheckedArraySchema::<Nil, Nil, Nil> {
        items: Some(BoxedElemOrVec::Vec(vec![
            UncheckedDataSchema {
                titles: Some(MultiLanguageBuilder::default().add(s("it"), s("title1")).add(s("en"), s("title2"))),
                descriptions: Some(MultiLanguageBuilder::default().add(s("it"), s("description1")).add(s("en"), s("description2"))),
                ..Default::default()
            },
            UncheckedDataSchema {
                titles: Some(MultiLanguageBuilder::default().add(s("it"), s("title3")).add(s("en"), s("title4"))),
                descriptions: Some(MultiLanguageBuilder::default().add(s("it"), s("description3")).add(s("en"), s("description4"))),
                ..Default::default()
            },
        ])),
        ..Default::default()
    };

    assert_eq!(
        ArraySchema::try_from(data_schema).unwrap(),
        ArraySchema {
            items: Some(BoxedElemOrVec::Vec(vec![
                DataSchema {
                    titles: Some(
                        texts(&[("it", "title1"), ("en", "title2")])
                    ),
                    descriptions: Some(
                        texts(&[("it", "description1"), ("en", "description2")])
                    ),
                    ..Default::default()
                },
                DataSchema {
                    titles: Some(
                        texts(&[("it", "title3"), ("en", "title4")])
                    ),
                    descriptions: Some(
                        texts(&[("it", "description3"), ("en", "description4")])
                    ),
                    ..Default::default()
                },
            ])),
            ..Default::default()
        }
    );
}

#[test]
fn invalid_unchecked_tuple_data_schema() {
    let data_schema = UncheckedArraySchema::<Nil, Nil, Nil> {
        items: Some(BoxedElemOrVec::Vec(vec![
            UncheckedDataSchema {
                titles: Some(MultiLanguageBuilder::default().add(s("it"), s("title1")).add(s("en"), s("title2"))),
                descriptions: Some(MultiLanguageBuilder::default().add(s("it"), s("description1")).add(s("en"), s("description2"))),
                ..Default::default()
            },
            UncheckedDataSchema {
                titles: Some(MultiLanguageBuilder::default().add(s("it"), s("title3")).add(s("en"), s("title4"))),
                descriptions: Some(MultiLanguageBuilder::default().add(s("it"), s("description3")).add(s("e1n"), s("description4"))),
                ..Default::default()
            },
        ])),
        ..Default::default()
    };

    assert_eq!(
        ArraySchema::try_from(data_schema).unwrap_err(),
        Error::InvalidLanguageTag("e1n".to_string()),
    );
}

#[test]
fn valid_unchecked_vec_data_schema() {
    let data_schema = UncheckedArraySchema::<Nil, Nil, Nil> {
        items: Some(BoxedElemOrVec::Elem(Box::new(UncheckedDataSchema {
            titles: Some(MultiLanguageBuilder::default().add(s("it"), s("title1")).add(s("en"), s("title2"))),
            descriptions: Some(MultiLanguageBuilder::default().add(s("it"), s("description1")).add(s("en"), s("description2"))),
            ..Default::default()
        }))),
        min_items: Some(1),
        ..Default::default()
    };

    assert_eq!(
        ArraySchema::try_from(data_schema).unwrap(),
        ArraySchema {
            items: Some(BoxedElemOrVec::Elem(Box::new(DataSchema {
                titles: Some(
                    texts(&[("it", "title1"), ("en", "title2")])
                ),
                descriptions: Some(
                    texts(&[("it", "description1"), ("en", "description2")])
                ),
                ..Default::default()
            },))),
            min_items: Some(1),
            ..Default::default()
        }
    );
}

#[test]
fn invalid_unchecked_vec_data_schema() {
    let data_schema = UncheckedArraySchema::<Nil, Nil, Nil> {
        items: Some(BoxedElemOrVec::Elem(Box::new(UncheckedDataSchema {
            titles: Some(MultiLanguageBuilder::default().add(s("it"), s("title1")).add(s("en"), s("title2"))),
            descriptions: Some(MultiLanguageBuilder::default().add(s("it"), s("description1")).add(s("e1n"), s("description2"))),
            ..Default::default()
        }))),
        min_items: Some(1),
        ..Default::default()
    };

    assert_eq!(
        ArraySchema::try_from(data_schema).unwrap_err(),
        Error::InvalidLanguageTag("e1n".to_string()),
    );
}

#[test]
fn valid_unchecked_object_data_schema() {
    let data_schema = UncheckedObjectSchema::<Nil, Nil, Nil> {
        properties: Some(OrderedMap { entries: vec![
                (
                    "data1".to_string(),
                    UncheckedDataSchema {
                        titles: Some(MultiLanguageBuilder::default().add(s("it"), s("title1")).add(s("en"), s("title2"))),
                        descriptions: Some(MultiLanguageBuilder::default().add(s("it"), s("description1")).add(s("en"), s("description2"))),
                        ..Default::default()
                    },
                ),
                (
                    "data2".to_string(),
                    UncheckedDataSchema {
                        titles: Some(MultiLanguageBuilder::default().add(s("it"), s("title3")).add(s("en"), s("title4"))),
                        descriptions: Some(MultiLanguageBuilder::default().add(s("it"), s("description3")).add(s("en"), s("description4"))),
                        ..Default::default()
                    },
                ),
            ] }),
        ..Default::default()
    };

    assert_eq!(
        ObjectSchema::try_from(data_schema).unwrap(),
        ObjectSchema {
            properties: Some(OrderedMap { entries: vec![
                    (
                        "data1".to_string(),
                        DataSchema {
                            titles: Some(
                                texts(&[("it", "title1"), ("en", "title2")])
                            ),
                            descriptions: Some(
                                texts(&[("it", "description1"), ("en", "description2")])
                            ),
                            ..Default::default()
                        }
                    ),
                    (
                        "data2".to_string(),
                        DataSchema {
                            titles: Some(
                                texts(&[("it", "title3"), ("en", "title4")])
                            ),
                            descriptions: Some(
                                texts(&[("it", "description3"), ("en", "description4")])
                            ),
                            ..Default::default()
                        }
                    ),
                ] }),
            ..Default::default()
        }
    );
}

#[test]
fn invalid_unchecked_object_data_schema() {
    let data_schema = UncheckedObjectSchema::<Nil, Nil, Nil> {
        properties: Some(OrderedMap { entries: vec![
                (
                    "data1".to_string(),
                    UncheckedDataSchema {
                        titles: Some(MultiLanguageBuilder::default().add(s("it"), s("title1")).add(s("en"), s("title2"))),
                        descriptions: Some(MultiLanguageBuilder::default().add(s("it"), s("description1")).add(s("en"), s("description2"))),
                        ..Default::default()
                    },
                ),
                (
                    "data2".to_string(),
                    UncheckedDataSchema {
                        titles: Some(MultiLanguageBuilder::default().add(s("it"), s("title3")).add(s("en"), s("title4"))),
                        descriptions: Some(MultiLanguageBuilder::default().add(s("i1t"), s("description3")).add(s("en"), s("description4"))),
                        ..Default::default()
                    },
                ),
            ] }),
        ..Default::default()
    };

    assert_eq!(
        ObjectSchema::try_from(data_schema).unwrap_err(),
        Error::InvalidLanguageTag("i1t".to_string()),
    )
}

#[test]
fn valid_unchecked_data_schema() {
    let data_schema = UncheckedDataSchema::<Nil, Nil, Nil> {
        attype: Some(vec!["attype1".to_string(), "attype2".to_string()]),
        title: Some("title".to_string()),
        titles: Some(MultiLanguageBuilder::default().add(s("it"), s("title1")).add(s("en"), s("title2"))),
        description: Some("description".to_string()),
        descriptions: Some(MultiLanguageBuilder::default().add(s("it"), s("description1")).add(s("en"), s("description2"))),
        unit: Some("unit".to_string()),
        read_only: true,
        write_only: true,
        format: Some("format".to_string()),
        subtype: Some(UncheckedDataSchemaSubtype::Number(NumberSchema {
            maximum: Some(Maximum::Inclusive(d(5.))),
            ..Default::default()
        })),
        ..Default::default()
    };

    assert_eq!(
        DataSchema::try_from(data_schema).unwrap(),
        DataSchema {
            attype: Some(vec!["attype1".to_string(), "attype2".to_string()]),
            title: Some("title".to_string()),
            titles: Some(
                texts(&[("it", "title1"), ("en", "title2")])
            ),
            description: Some("description".to_string()),
            descriptions: Some(
                texts(&[("it", "description1"), ("en", "description2")])
            ),
            unit: Some("unit".to_string()),
            read_only: true,
            write_only: true,
            format: Some("format".to_string()),
            subtype: Some(DataSchemaSubtype::Number(NumberSchema {
                maximum: Some(Maximum::Inclusive(d(5.))),
                ..Default::default()
            })),
            ..Default::default()
        }
    );
}

#[test]
fn invalid_unchecked_data_schema() {
    let data_schema = UncheckedDataSchema::<Nil, Nil, Nil> {
        attype: Some(vec!["attype1".to_string(), "attype2".to_string()]),
        title: Some("title".to_string()),
        titles: Some(MultiLanguageBuilder::default().add(s("it"), s("title1")).add(s("en"), s("title2"))),
        description: Some("description".to_string()),
        descriptions: Some(MultiLanguageBuilder::default().add(s("i1t"), s("description1")).add(s("en"), s("description2"))),
        unit: Some("unit".to_string()),
        read_only: true,
        write_only: true,
        format: Some("format".to_string()),
        subtype: Some(UncheckedDataSchemaSubtype::Number(NumberSchema {
            maximum: Some(Maximum::Inclusive(d(5.))),
            ..Default::default()
        })),
        ..Default::default()
    };

    assert_eq!(
        DataSchema::try_from(data_schema).unwrap_err(),
        Error::InvalidLanguageTag("i1t".to_string()),
    );
}
