use pyoxipng::value::uses_unordered;
use pyoxipng::{
    parse_kw_opts, parse_kw_opts_dict, resolve, Configuration, Deflater, Filter, Interlace, OptionError, OptionKey,
    StripPolicy, Value, ValueError, ValueKind,
};

fn kv(name: &str, v: Value) -> (String, Value) {
    (name.to_string(), v)
}

fn engine_filters(c: &Configuration) -> Vec<oxipng::RowFilter> {
    c.filter.iter().map(|f| f.to_engine()).collect()
}

#[test]
fn every_preset_matches_the_engine() {
    for level in 0..=6i64 {
        let c = resolve(Some(level), &vec![]).unwrap();
        let e = oxipng::Options::from_preset(level as u8);
        assert_eq!(engine_filters(&c), e.filter.iter().copied().collect::<Vec<_>>());
        assert_eq!(c.fix_errors, e.fix_errors);
        assert_eq!(c.force, e.force);
        assert_eq!(c.optimize_alpha, e.optimize_alpha);
        assert_eq!(c.bit_depth_reduction, e.bit_depth_reduction);
        assert_eq!(c.color_type_reduction, e.color_type_reduction);
        assert_eq!(c.palette_reduction, e.palette_reduction);
        assert_eq!(c.grayscale_reduction, e.grayscale_reduction);
        assert_eq!(c.idat_recoding, e.idat_recoding);
        assert_eq!(c.scale_16, e.scale_16);
        assert_eq!(c.fast_evaluation, e.fast_evaluation);
        assert_eq!(c.timeout, None);
        assert_eq!(c.interlace, Some(Interlace::Off));
        assert!(matches!(c.strip, StripPolicy::Nothing));
        match e.deflate {
            oxipng::Deflaters::Libdeflater { compression } => {
                assert_eq!(c.deflate, Deflater::Libdeflater { compression })
            }
            _ => panic!("presets use libdeflate"),
        }
    }
}

#[test]
fn preset_levels_have_the_documented_compression() {
    let expected = [5u8, 10, 11, 11, 12, 12, 12];
    for (level, compression) in expected.iter().enumerate() {
        let c = resolve(Some(level as i64), &vec![]).unwrap();
        assert_eq!(c.deflate, Deflater::Libdeflater { compression: *compression });
    }
}

#[test]
fn resolving_twice_gives_the_same_configuration() {
    let ov = vec![kv("force", Value::Bool(true)), kv("timeout", Value::Millis(250))];
    let a = resolve(Some(4), &ov).unwrap();
    let b = resolve(Some(4), &ov).unwrap();
    assert_eq!(format!("{:?}", a), format!("{:?}", b));
}

#[test]
fn no_options_gives_engine_defaults() {
    let c = parse_kw_opts(None).unwrap();
    let d = resolve(Some(2), &vec![]).unwrap();
    assert_eq!(format!("{:?}", c), format!("{:?}", d));
    assert_eq!(c.filter, vec![Filter::NoOp, Filter::Sub, Filter::Entropy, Filter::Bigrams]);
}

#[test]
fn level_seven_is_refused() {
    let r = resolve(None, &vec![kv("level", Value::Int(7))]);
    assert!(matches!(r, Err(OptionError::LevelOutOfRange(7))));
    let r = resolve(Some(7), &vec![]);
    assert!(matches!(r, Err(OptionError::LevelOutOfRange(7))));
    let r = resolve(Some(-1), &vec![]);
    assert!(matches!(r, Err(OptionError::LevelOutOfRange(-1))));
}

#[test]
fn non_integer_level_is_refused() {
    let r = parse_kw_opts_dict(&vec![kv("level", Value::Text("high".to_string()))]);
    assert!(matches!(r, Err(OptionError::LevelNotInteger)));
}

#[test]
fn level_override_picks_the_preset() {
    let c = parse_kw_opts_dict(&vec![kv("level", Value::Int(0))]).unwrap();
    assert!(c.filter.is_empty());
    assert_eq!(c.deflate, Deflater::Libdeflater { compression: 5 });
}

#[test]
fn unknown_option_is_named() {
    let r = resolve(None, &vec![kv("foo", Value::Bool(true))]);
    match r {
        Err(OptionError::Unsupported(k)) => assert_eq!(k, "foo"),
        other => panic!("unexpected {:?}", other),
    }
}

#[test]
fn option_names_are_case_sensitive() {
    assert_eq!(OptionKey::parse("force"), Some(OptionKey::Force));
    assert_eq!(OptionKey::parse("Force"), None);
    assert_eq!(OptionKey::parse("use_heuristics"), Some(OptionKey::UseHeuristics));
    assert_eq!(OptionKey::parse("levels"), None);
}

#[test]
fn bad_value_names_key_and_cause() {
    let r = resolve(None, &vec![kv("force", Value::Int(1))]);
    match r {
        Err(OptionError::InvalidValue(k, ValueError::WrongType(ValueKind::Bool))) => assert_eq!(k, "force"),
        other => panic!("unexpected {:?}", other),
    }
}

#[test]
fn first_bad_override_decides_the_error() {
    let r = resolve(
        None,
        &vec![kv("force", Value::Bool(true)), kv("bar", Value::Null), kv("fix_errors", Value::Int(3))],
    );
    match r {
        Err(OptionError::Unsupported(k)) => assert_eq!(k, "bar"),
        other => panic!("unexpected {:?}", other),
    }
}

#[test]
fn interlace_override_changes_only_interlace() {
    let base = resolve(Some(3), &vec![]).unwrap();
    let mut expected = resolve(Some(3), &vec![]).unwrap();
    expected.interlace = Some(Interlace::Adam7);
    let c = resolve(Some(3), &vec![kv("interlace", Value::Interlace(Interlace::Adam7))]).unwrap();
    assert_eq!(format!("{:?}", c), format!("{:?}", expected));
    assert_ne!(format!("{:?}", c), format!("{:?}", base));
}

#[test]
fn interlace_none_leaves_input_as_is() {
    let c = resolve(None, &vec![kv("interlace", Value::Null)]).unwrap();
    assert_eq!(c.interlace, None);
    let r = resolve(None, &vec![kv("interlace", Value::Bool(false))]);
    assert!(matches!(r, Err(OptionError::InvalidValue(_, ValueError::WrongType(ValueKind::Interlace)))));
}

#[test]
fn timeout_in_milliseconds() {
    let c = resolve(None, &vec![kv("timeout", Value::Millis(1500))]).unwrap();
    assert_eq!(c.timeout, Some(1500));
    let c = resolve(None, &vec![kv("timeout", Value::Int(2))]).unwrap();
    assert_eq!(c.timeout, Some(2000));
    let c = resolve(None, &vec![kv("timeout", Value::Null)]).unwrap();
    assert_eq!(c.timeout, None);
    let c = resolve(None, &vec![]).unwrap();
    assert_eq!(c.timeout, None);
    let r = resolve(None, &vec![kv("timeout", Value::Int(-3))]);
    assert!(matches!(r, Err(OptionError::InvalidValue(_, ValueError::OutOfRange(-3)))));
    let r = resolve(None, &vec![kv("timeout", Value::Text("1".to_string()))]);
    assert!(matches!(r, Err(OptionError::InvalidValue(_, ValueError::WrongType(ValueKind::Seconds)))));
}

#[test]
fn timeout_reaches_the_engine() {
    let c = resolve(None, &vec![kv("timeout", Value::Millis(1500))]).unwrap();
    let o = c.to_engine();
    assert_eq!(o.timeout, Some(std::time::Duration::from_millis(1500)));
}

#[test]
fn repeated_key_last_write_wins() {
    let c = resolve(None, &vec![kv("force", Value::Bool(true)), kv("force", Value::Bool(false))]).unwrap();
    assert!(!c.force);
    let c = resolve(None, &vec![kv("force", Value::Bool(false)), kv("force", Value::Bool(true))]).unwrap();
    assert!(c.force);
}

#[test]
fn filter_list_becomes_a_set() {
    let v = Value::List(vec![
        Value::Filter(Filter::Brute),
        Value::Filter(Filter::Up),
        Value::Filter(Filter::Brute),
    ]);
    let c = resolve(None, &vec![kv("filter", v)]).unwrap();
    assert_eq!(c.filter, vec![Filter::Brute, Filter::Up]);
    let o = c.to_engine();
    assert_eq!(o.filter.iter().copied().collect::<Vec<_>>(), vec![oxipng::RowFilter::Brute, oxipng::RowFilter::Up]);
}

#[test]
fn empty_filter_set_is_allowed() {
    let c = resolve(Some(5), &vec![kv("filter", Value::Tuple(vec![]))]).unwrap();
    assert!(c.filter.is_empty());
}

#[test]
fn filter_items_must_be_filters() {
    let r = resolve(None, &vec![kv("filter", Value::List(vec![Value::Int(1)]))]);
    assert!(matches!(r, Err(OptionError::InvalidValue(_, ValueError::WrongType(ValueKind::Filter)))));
    let r = resolve(None, &vec![kv("filter", Value::Filter(Filter::Sub))]);
    assert!(matches!(r, Err(OptionError::InvalidValue(_, ValueError::WrongType(ValueKind::Collection)))));
}

#[test]
fn unordered_collections_are_flagged() {
    let set = Value::Unordered(vec![Value::Filter(Filter::Sub)]);
    let ov = vec![kv("filter", set)];
    assert!(uses_unordered(&ov));
    let c = resolve(None, &ov).unwrap();
    assert_eq!(c.filter, vec![Filter::Sub]);
    assert!(!uses_unordered(&vec![kv("filter", Value::List(vec![]))]));
}

#[test]
fn strip_and_deflate_overrides() {
    let strip = StripPolicy::keep(&Value::List(vec![Value::Bytes(b"tEXt".to_vec())])).unwrap();
    let deflate = Deflater::zopfli(15).unwrap();
    let c = resolve(Some(1), &vec![kv("strip", Value::Strip(strip)), kv("deflate", Value::Deflater(deflate))]).unwrap();
    match &c.strip {
        StripPolicy::Keep(t) => assert_eq!(t, &vec![*b"tEXt"]),
        other => panic!("unexpected {:?}", other),
    }
    assert_eq!(c.deflate, Deflater::Zopfli { iterations: 15 });
    let o = c.to_engine();
    match o.strip {
        oxipng::StripChunks::Keep(t) => assert_eq!(t.iter().copied().collect::<Vec<_>>(), vec![*b"tEXt"]),
        _ => panic!("keep expected"),
    }
}

#[test]
fn zero_iteration_deflater_value_is_refused() {
    let r = resolve(None, &vec![kv("deflate", Value::Deflater(Deflater::Zopfli { iterations: 0 }))]);
    assert!(matches!(r, Err(OptionError::InvalidValue(_, ValueError::ZeroIterations))));
    let r = resolve(None, &vec![kv("strip", Value::Bool(true))]);
    assert!(matches!(r, Err(OptionError::InvalidValue(_, ValueError::WrongType(ValueKind::Strip)))));
}

#[test]
fn compatibility_flags_are_accepted() {
    let ov = vec![
        kv("backup", Value::Bool(true)),
        kv("check", Value::Bool(true)),
        kv("pretend", Value::Bool(true)),
        kv("preserve_attrs", Value::Bool(true)),
        kv("use_heuristics", Value::Bool(true)),
    ];
    let c = resolve(None, &ov).unwrap();
    assert!(c.backup && c.check && c.pretend && c.preserve_attrs && c.use_heuristics);
}

#[test]
fn every_boolean_option_is_set() {
    let names = [
        "fix_errors", "force", "optimize_alpha", "bit_depth_reduction", "color_type_reduction",
        "palette_reduction", "grayscale_reduction", "idat_recoding", "scale_16", "fast_evaluation",
    ];
    for name in names {
        let c = resolve(None, &vec![kv(name, Value::Bool(true))]).unwrap();
        let d = resolve(None, &vec![kv(name, Value::Bool(false))]).unwrap();
        assert_ne!(format!("{:?}", c), format!("{:?}", d), "{}", name);
    }
}

#[test]
fn strip_override_with_repeats_becomes_a_set() {
    let p = StripPolicy::Keep(vec![*b"iCCP", *b"iCCP", *b"sRGB"]);
    let c = resolve(None, &vec![kv("strip", Value::Strip(p))]).unwrap();
    match &c.strip {
        StripPolicy::Keep(t) => assert_eq!(t, &vec![*b"iCCP", *b"sRGB"]),
        other => panic!("unexpected {:?}", other),
    }
}

#[test]
fn out_of_range_libdeflate_level_is_refused() {
    let d = Deflater::Libdeflater { compression: 13 };
    let r = resolve(None, &vec![kv("deflate", Value::Deflater(d))]);
    match r {
        Err(OptionError::InvalidValue(k, ValueError::CompressionOutOfRange(13))) => assert_eq!(k, "deflate"),
        other => panic!("unexpected {:?}", other),
    }
    let c = resolve(None, &vec![kv("deflate", Value::Deflater(Deflater::Libdeflater { compression: 12 }))]).unwrap();
    assert_eq!(c.deflate, Deflater::Libdeflater { compression: 12 });
}
