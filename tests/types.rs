use pyoxipng::types::{Libdeflater, Zopfli};
use pyoxipng::value::Given;
use pyoxipng::{Deflater, Filter, Interlace, StripPolicy, Value, ValueError, ValueKind};

const ENGINE_FILTERS: [oxipng::RowFilter; 10] = [
    oxipng::RowFilter::None,
    oxipng::RowFilter::Sub,
    oxipng::RowFilter::Up,
    oxipng::RowFilter::Average,
    oxipng::RowFilter::Paeth,
    oxipng::RowFilter::MinSum,
    oxipng::RowFilter::Entropy,
    oxipng::RowFilter::Bigrams,
    oxipng::RowFilter::BigEnt,
    oxipng::RowFilter::Brute,
];

#[test]
fn filter_mapping_is_a_bijection() {
    let mut seen = Vec::new();
    for e in ENGINE_FILTERS {
        let f = Filter::from_engine(e);
        assert_eq!(f.to_engine(), e);
        assert!(!seen.contains(&f));
        seen.push(f);
    }
    assert_eq!(seen.len(), 10);
    assert_eq!(Filter::NoOp.to_engine(), oxipng::RowFilter::None);
    assert_eq!(Filter::from_engine(oxipng::RowFilter::BigEnt), Filter::BigEnt);
}

#[test]
fn interlacing_mapping_is_a_bijection() {
    assert_eq!(Interlace::Off.to_engine(), oxipng::Interlacing::None);
    assert_eq!(Interlace::Adam7.to_engine(), oxipng::Interlacing::Adam7);
    assert_eq!(Interlace::from_engine(oxipng::Interlacing::None), Interlace::Off);
    assert_eq!(Interlace::from_engine(oxipng::Interlacing::Adam7), Interlace::Adam7);
}

#[test]
fn zopfli_zero_fails_fifteen_round_trips() {
    assert!(matches!(Deflater::zopfli(0), Err(ValueError::ZeroIterations)));
    let d = Deflater::zopfli(15).unwrap();
    assert_eq!(d, Deflater::Zopfli { iterations: 15 });
    let mut c = pyoxipng::resolve(None, &vec![]).unwrap();
    c.deflate = d;
    match c.to_engine().deflate {
        oxipng::Deflaters::Zopfli { iterations } => assert_eq!(iterations.get(), 15),
        _ => panic!("zopfli expected"),
    }
    assert!(matches!(Deflater::zopfli(255), Ok(Deflater::Zopfli { iterations: 255 })));
}

#[test]
fn zopfli_and_libdeflater_settings() {
    assert!(matches!(Zopfli::new(0), Err(ValueError::ZeroIterations)));
    let z = Zopfli::new(7).unwrap();
    assert_eq!(Deflater::from(z), Deflater::Zopfli { iterations: 7 });
    assert_eq!(Deflater::from(Libdeflater::new()), Deflater::Libdeflater { compression: 2 });
    assert_eq!(Deflater::libdeflater(9).unwrap(), Deflater::Libdeflater { compression: 9 });
}

#[test]
fn libdeflater_level_reaches_the_engine() {
    let mut c = pyoxipng::resolve(None, &vec![]).unwrap();
    c.deflate = Deflater::libdeflater(3).unwrap();
    match c.to_engine().deflate {
        oxipng::Deflaters::Libdeflater { compression } => assert_eq!(compression, 3),
        _ => panic!("libdeflate expected"),
    }
}

fn names(items: &[&[u8]]) -> Value {
    Value::List(items.iter().map(|b| Value::Bytes(b.to_vec())).collect())
}

#[test]
fn strip_four_byte_names() {
    match StripPolicy::strip(&names(&[b"IDAT"])) {
        Ok(StripPolicy::Strip(t)) => assert_eq!(t, vec![*b"IDAT"]),
        other => panic!("unexpected {:?}", other),
    }
    match StripPolicy::strip(&names(&[b"ID"])) {
        Err(ValueError::BadChunkName(n)) => assert_eq!(n, b"ID".to_vec()),
        other => panic!("unexpected {:?}", other),
    }
}

#[test]
fn strip_names_form_a_set() {
    match StripPolicy::keep(&Value::Tuple(vec![
        Value::Bytes(b"iCCP".to_vec()),
        Value::Bytes(b"tEXt".to_vec()),
        Value::Bytes(b"iCCP".to_vec()),
    ])) {
        Ok(StripPolicy::Keep(t)) => assert_eq!(t, vec![*b"iCCP", *b"tEXt"]),
        other => panic!("unexpected {:?}", other),
    }
}

#[test]
fn strip_refuses_non_bytes_and_non_collections() {
    match StripPolicy::strip(&Value::List(vec![Value::Text("IDAT".to_string())])) {
        Err(ValueError::NotBytes(Given::Text(t))) => assert_eq!(t, "IDAT"),
        other => panic!("unexpected {:?}", other),
    }
    assert!(matches!(
        StripPolicy::keep(&Value::List(vec![Value::Bytes(b"IDAT".to_vec()), Value::Int(4)])),
        Err(ValueError::NotBytes(Given::Int(4)))
    ));
    assert!(matches!(StripPolicy::keep(&Value::Bytes(b"IDAT".to_vec())), Err(ValueError::WrongType(ValueKind::Collection))));
    match StripPolicy::strip(&names(&[b"IDAT", b"tEXtx", b"ab"])) {
        Err(ValueError::BadChunkName(n)) => assert_eq!(n, b"tEXtx".to_vec()),
        other => panic!("unexpected {:?}", other),
    }
}

#[test]
fn strip_policies_without_names() {
    assert!(matches!(StripPolicy::none(), StripPolicy::Nothing));
    assert!(matches!(StripPolicy::safe(), StripPolicy::Safe));
    assert!(matches!(StripPolicy::all(), StripPolicy::All));
}

#[test]
fn from_converts_to_engine_values() {
    assert_eq!(oxipng::RowFilter::from(Filter::NoOp), oxipng::RowFilter::None);
    assert_eq!(oxipng::RowFilter::from(Filter::Paeth), oxipng::RowFilter::Paeth);
    assert_eq!(oxipng::Interlacing::from(Interlace::Adam7), oxipng::Interlacing::Adam7);
    for e in ENGINE_FILTERS {
        assert_eq!(oxipng::RowFilter::from(Filter::from_engine(e)), e);
    }
}

#[test]
fn strip_policy_as_set_drops_repeats() {
    let p = StripPolicy::Strip(vec![*b"tEXt", *b"iTXt", *b"tEXt"]);
    match p.as_set() {
        StripPolicy::Strip(t) => assert_eq!(t, vec![*b"tEXt", *b"iTXt"]),
        other => panic!("unexpected {:?}", other),
    }
}

#[test]
fn libdeflate_levels_lie_in_one_to_twelve() {
    assert!(matches!(Deflater::libdeflater(0), Err(ValueError::CompressionOutOfRange(0))));
    assert!(matches!(Deflater::libdeflater(13), Err(ValueError::CompressionOutOfRange(13))));
    assert!(matches!(Deflater::libdeflater(255), Err(ValueError::CompressionOutOfRange(255))));
    assert!(matches!(Deflater::libdeflater(1), Ok(Deflater::Libdeflater { compression: 1 })));
    assert!(matches!(Deflater::libdeflater(12), Ok(Deflater::Libdeflater { compression: 12 })));
}
