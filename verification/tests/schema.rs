use memio::schema::{
    field_type_token, fields_json, is_control, push_json_string, scalar_type_token, FieldSyntax,
};
use memio::{schema_json, MemioField, MemioFieldType, MemioScalarType, MemioSchema};

struct Player;

static PLAYER_FIELDS: [MemioField; 3] = [
    MemioField { name: "id", offset: 0, ty: MemioFieldType::Scalar(MemioScalarType::U64) },
    MemioField {
        name: "pos",
        offset: 8,
        ty: MemioFieldType::Array { elem: MemioScalarType::F32, len: 3 },
    },
    MemioField { name: "hp", offset: 20, ty: MemioFieldType::Scalar(MemioScalarType::I16) },
];

impl MemioSchema for Player {
    fn schema() -> &'static [MemioField] {
        &PLAYER_FIELDS
    }
}

struct Empty;

impl MemioSchema for Empty {
    fn schema() -> &'static [MemioField] {
        &[]
    }
}

#[test]
fn schema_of_a_struct() {
    assert_eq!(
        schema_json::<Player>(),
        "{\"fields\":[{\"name\":\"id\",\"offset\":0,\"type\":\"u64\"},{\"name\":\"pos\",\"offset\":8,\"type\":\"array\",\"elem\":\"f32\",\"len\":3},{\"name\":\"hp\",\"offset\":20,\"type\":\"i16\"}]}"
    );
}

#[test]
fn schema_without_fields() {
    assert_eq!(schema_json::<Empty>(), "{\"fields\":[]}");
    assert_eq!(fields_json(&[]), "{\"fields\":[]}");
}

#[test]
fn scalar_tags() {
    let tags: Vec<&str> = [
        MemioScalarType::U8,
        MemioScalarType::U16,
        MemioScalarType::U32,
        MemioScalarType::U64,
        MemioScalarType::I8,
        MemioScalarType::I16,
        MemioScalarType::I32,
        MemioScalarType::I64,
        MemioScalarType::F32,
        MemioScalarType::F64,
    ]
    .iter()
    .map(|t| t.as_str())
    .collect();
    assert_eq!(tags, ["u8", "u16", "u32", "u64", "i8", "i16", "i32", "i64", "f32", "f64"]);
}

#[test]
fn names_are_escaped() {
    let mut out = String::from(">");
    push_json_string(&mut out, "a\"b\\c\nd\re\tf\u{1}g\u{1f}h\u{7f}i\u{9f}j\u{a0}k\u{e9}");
    assert_eq!(
        out,
        ">a\\\"b\\\\c\\nd\\re\\tf\\u0001g\\u001fh\\u007fi\\u009fj\u{a0}k\u{e9}"
    );
}

#[test]
fn control_characters_are_the_two_c_ranges() {
    for code in 0u32..0x400 {
        let c = char::from_u32(code).unwrap();
        assert_eq!(is_control(c), c.is_control(), "U+{:04X}", code);
    }
    assert!(!is_control('\u{2028}'));
    assert!(!is_control('\u{10FFFF}'));
}

#[test]
fn field_with_escaped_name() {
    let fields = [MemioField {
        name: "a\"b",
        offset: 123456,
        ty: MemioFieldType::Scalar(MemioScalarType::U8),
    }];
    assert_eq!(
        fields_json(&fields),
        "{\"fields\":[{\"name\":\"a\\\"b\",\"offset\":123456,\"type\":\"u8\"}]}"
    );
}

#[test]
fn types_are_recognized_by_their_names() {
    let all = [
        MemioScalarType::U8,
        MemioScalarType::U16,
        MemioScalarType::U32,
        MemioScalarType::U64,
        MemioScalarType::I8,
        MemioScalarType::I16,
        MemioScalarType::I32,
        MemioScalarType::I64,
        MemioScalarType::F32,
        MemioScalarType::F64,
    ];
    for ty in all {
        let found = scalar_type_token(Some(ty.as_str())).unwrap();
        assert_eq!(found.as_str(), ty.as_str());
    }
    assert_eq!(
        scalar_type_token(Some("String")).unwrap_err(),
        "MemioModel: unsupported field type `String`"
    );
    assert_eq!(scalar_type_token(Some("")).unwrap_err(), "MemioModel: unsupported field type ``");
    assert_eq!(scalar_type_token(None).unwrap_err(), "MemioModel: unsupported field type");
}

#[test]
fn fields_are_scalars_or_arrays_of_scalars() {
    let tag = |r: Result<MemioFieldType, String>| match r {
        Ok(MemioFieldType::Scalar(ty)) => ty.as_str().to_string(),
        Ok(MemioFieldType::Array { elem, len }) => format!("[{}; {}]", elem.as_str(), len),
        Err(words) => words,
    };
    assert_eq!(tag(field_type_token(FieldSyntax::Path(Some("i64")))), "i64");
    assert_eq!(
        tag(field_type_token(FieldSyntax::Array { elem: Some("f32"), len: Some(3) })),
        "[f32; 3]"
    );
    assert_eq!(
        tag(field_type_token(FieldSyntax::Array { elem: Some("f32"), len: None })),
        "MemioModel: array length must be a literal integer"
    );
    assert_eq!(
        tag(field_type_token(FieldSyntax::Array { elem: Some("Vec"), len: None })),
        "MemioModel: unsupported field type `Vec`"
    );
    assert_eq!(
        tag(field_type_token(FieldSyntax::Array { elem: None, len: Some(2) })),
        "MemioModel: unsupported field type"
    );
    assert_eq!(
        tag(field_type_token(FieldSyntax::Path(Some("bool")))),
        "MemioModel: unsupported field type `bool`"
    );
    assert_eq!(
        tag(field_type_token(FieldSyntax::Path(None))),
        "MemioModel: unsupported field type"
    );
    assert_eq!(tag(field_type_token(FieldSyntax::Other)), "MemioModel: unsupported field type");
}
