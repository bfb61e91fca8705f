//! The layout of a serialized value, field by field, and its description as
//! a JSON document.

use crate::text::{push_decimal, push_hex4, spec_decimal, spec_hex4, str_eq};
use vstd::prelude::*;
use vstd::string::*;

verus! {

/// The scalar types a field can have.
#[derive(Debug, Clone, Copy)]
pub enum MemioScalarType {
    U8,
    U16,
    U32,
    U64,
    I8,
    I16,
    I32,
    I64,
    F32,
    F64,
}

impl MemioScalarType {
    /// The tag that stands for the type in a description.
    pub open spec fn spec_name(self) -> Seq<char> {
        match self {
            MemioScalarType::U8 => "u8"@,
            MemioScalarType::U16 => "u16"@,
            MemioScalarType::U32 => "u32"@,
            MemioScalarType::U64 => "u64"@,
            MemioScalarType::I8 => "i8"@,
            MemioScalarType::I16 => "i16"@,
            MemioScalarType::I32 => "i32"@,
            MemioScalarType::I64 => "i64"@,
            MemioScalarType::F32 => "f32"@,
            MemioScalarType::F64 => "f64"@,
        }
    }

    pub fn as_str(self) -> (tag: &'static str)
        ensures
            tag@ == self.spec_name(),
    {
        match self {
            MemioScalarType::U8 => "u8",
            MemioScalarType::U16 => "u16",
            MemioScalarType::U32 => "u32",
            MemioScalarType::U64 => "u64",
            MemioScalarType::I8 => "i8",
            MemioScalarType::I16 => "i16",
            MemioScalarType::I32 => "i32",
            MemioScalarType::I64 => "i64",
            MemioScalarType::F32 => "f32",
            MemioScalarType::F64 => "f64",
        }
    }
}

/// A scalar, or an array of scalars of fixed length.
#[derive(Debug, Clone, Copy)]
pub enum MemioFieldType {
    Scalar(MemioScalarType),
    Array { elem: MemioScalarType, len: usize },
}

/// One field of a serialized value.
#[derive(Debug, Clone, Copy)]
pub struct MemioField {
    pub name: &'static str,
    /// Where the field starts, in bytes from the start of the value.
    pub offset: usize,
    pub ty: MemioFieldType,
}

/// A type whose serialized layout is known.
pub trait MemioSchema {
    /// The fields of the serialized form, in declaration order.
    fn schema() -> &'static [MemioField];
}

/// Whether `c` is a control character: U+0000 to U+001F and U+007F to
/// U+009F.
pub open spec fn spec_is_control(c: char) -> bool {
    (c as u32) < 0x20 || (0x7f <= (c as u32) && (c as u32) <= 0x9f)
}

/// How one character stands inside a JSON string.
pub open spec fn spec_escape_char(c: char) -> Seq<char> {
    if c == '"' {
        "\\\""@
    } else if c == '\\' {
        "\\\\"@
    } else if c == '\n' {
        "\\n"@
    } else if c == '\r' {
        "\\r"@
    } else if c == '\t' {
        "\\t"@
    } else if spec_is_control(c) {
        "\\u"@ + spec_hex4(c as u32 as nat)
    } else {
        seq![c]
    }
}

/// `s` with each character escaped for a JSON string.
pub open spec fn spec_json_escape(s: Seq<char>) -> Seq<char>
    decreases s.len(),
{
    if s.len() == 0 {
        Seq::empty()
    } else {
        spec_json_escape(s.drop_last()) + spec_escape_char(s.last())
    }
}

/// The JSON object that describes one field.
pub open spec fn spec_field_json(field: MemioField) -> Seq<char> {
    "{\"name\":\""@ + spec_json_escape(field.name@) + "\",\"offset\":"@ + spec_decimal(
        field.offset as nat,
    ) + match field.ty {
        MemioFieldType::Scalar(ty) => ",\"type\":\""@ + ty.spec_name() + "\"}"@,
        MemioFieldType::Array { elem, len } => ",\"type\":\"array\",\"elem\":\""@
            + elem.spec_name() + "\",\"len\":"@ + spec_decimal(len as nat) + "}"@,
    }
}

/// The objects of `fields`, separated by commas.
pub open spec fn spec_fields_json(fields: Seq<MemioField>) -> Seq<char>
    decreases fields.len(),
{
    if fields.len() == 0 {
        Seq::empty()
    } else if fields.len() == 1 {
        spec_field_json(fields.last())
    } else {
        spec_fields_json(fields.drop_last()) + ","@ + spec_field_json(fields.last())
    }
}

/// The document that describes `fields`.
pub open spec fn spec_schema_json(fields: Seq<MemioField>) -> Seq<char> {
    "{\"fields\":["@ + spec_fields_json(fields) + "]}"@
}

/// Whether `c` is a control character.
pub fn is_control(c: char) -> (control: bool)
    ensures
        control == spec_is_control(c),
{
    let code = c as u32;
    code < 0x20 || (0x7f <= code && code <= 0x9f)
}

/// Appends `value` to `out`, escaped for a JSON string: quote, backslash,
/// newline, carriage return and tab by their short forms, other control
/// characters as `\u` and four hexadecimal digits.
pub fn push_json_string(out: &mut String, value: &str)
    ensures
        final(out)@ == old(out)@ + spec_json_escape(value@),
{
    for c in it: value.chars()
        invariant
            it.seq() == value@,
            out@ == old(out)@ + spec_json_escape(value@.take(it.index() as int)),
    {
        let ghost before = value@.take(it.index() as int);
        let ghost after = value@.take(it.index() + 1);
        assert(after.drop_last() =~= before);
        if c == '"' {
            out.append("\\\"");
        } else if c == '\\' {
            out.append("\\\\");
        } else if c == '\n' {
            out.append("\\n");
        } else if c == '\r' {
            out.append("\\r");
        } else if c == '\t' {
            out.append("\\t");
        } else if is_control(c) {
            out.append("\\u");
            push_hex4(out, c as u32 as u16);
        } else {
            out.push(c);
        }
    }
    assert(value@.take(value@.len() as int) =~= value@);
}

/// Appends the JSON object of one field.
fn push_field_json(out: &mut String, field: &MemioField)
    ensures
        final(out)@ == old(out)@ + spec_field_json(*field),
{
    out.append("{\"name\":\"");
    push_json_string(out, field.name);
    out.append("\",\"offset\":");
    push_decimal(out, field.offset as u64);
    match field.ty {
        MemioFieldType::Scalar(ty) => {
            out.append(",\"type\":\"");
            out.append(ty.as_str());
            out.append("\"}");
        },
        MemioFieldType::Array { elem, len } => {
            out.append(",\"type\":\"array\",\"elem\":\"");
            out.append(elem.as_str());
            out.append("\",\"len\":");
            push_decimal(out, len as u64);
            out.append("}");
        },
    }
}

/// The JSON document that describes `fields`.
pub fn fields_json(fields: &[MemioField]) -> (out: String)
    ensures
        out@ == spec_schema_json(fields@),
{
    let mut out = "{\"fields\":[".to_owned();
    let mut idx: usize = 0;
    while idx < fields.len()
        invariant
            idx <= fields.len(),
            out@ == "{\"fields\":["@ + spec_fields_json(fields@.take(idx as int)),
        decreases fields.len() - idx,
    {
        let ghost after = fields@.take(idx + 1);
        assert(after.drop_last() =~= fields@.take(idx as int));
        if idx > 0 {
            out.append(",");
        }
        push_field_json(&mut out, &fields[idx]);
        idx += 1;
    }
    assert(fields@.take(fields@.len() as int) =~= fields@);
    out.append("]}");
    out
}

/// The JSON document that describes the layout of `T`: that of the fields
/// which `T` gives as its schema.
pub fn schema_json<T: MemioSchema>() -> (out: String)
    ensures
        exists|fields: &'static [MemioField]|
            {
                &&& #[trigger] call_ensures(T::schema, (), fields)
                &&& out@ == spec_schema_json(fields@)
            },
{
    fields_json(T::schema())
}

/// How the type of a field is written, as far as a description needs it.
pub enum FieldSyntax<'a> {
    /// A type that is named by a path; its last segment, where it has one.
    Path(Option<&'a str>),
    /// An array: the last segment of its element's path, where the element
    /// is named by one, and its length, where that is an integer literal.
    Array { elem: Option<&'a str>, len: Option<usize> },
    /// Any other type.
    Other,
}

/// The scalar type that is written `name`.
pub open spec fn spec_scalar_named(name: Seq<char>) -> Option<MemioScalarType> {
    if name == "u8"@ {
        Some(MemioScalarType::U8)
    } else if name == "u16"@ {
        Some(MemioScalarType::U16)
    } else if name == "u32"@ {
        Some(MemioScalarType::U32)
    } else if name == "u64"@ {
        Some(MemioScalarType::U64)
    } else if name == "i8"@ {
        Some(MemioScalarType::I8)
    } else if name == "i16"@ {
        Some(MemioScalarType::I16)
    } else if name == "i32"@ {
        Some(MemioScalarType::I32)
    } else if name == "i64"@ {
        Some(MemioScalarType::I64)
    } else if name == "f32"@ {
        Some(MemioScalarType::F32)
    } else if name == "f64"@ {
        Some(MemioScalarType::F64)
    } else {
        None
    }
}

/// Every scalar type is written as its tag, and as no other.
pub proof fn lemma_scalar_named(ty: MemioScalarType)
    ensures
        spec_scalar_named(ty.spec_name()) == Some(ty),
{
    reveal_strlit("u8");
    reveal_strlit("u16");
    reveal_strlit("u32");
    reveal_strlit("u64");
    reveal_strlit("i8");
    reveal_strlit("i16");
    reveal_strlit("i32");
    reveal_strlit("i64");
    reveal_strlit("f32");
    reveal_strlit("f64");
    assert("u16"@[0] == 'u' && "u16"@[1] == '1' && "u16"@[2] == '6');
    assert("u32"@[0] == 'u' && "u32"@[1] == '3' && "u32"@[2] == '2');
    assert("u64"@[0] == 'u' && "u64"@[1] == '6' && "u64"@[2] == '4');
    assert("i16"@[0] == 'i' && "i16"@[1] == '1' && "i16"@[2] == '6');
    assert("i32"@[0] == 'i' && "i32"@[1] == '3' && "i32"@[2] == '2');
    assert("i64"@[0] == 'i' && "i64"@[1] == '6' && "i64"@[2] == '4');
    assert("f32"@[0] == 'f' && "f32"@[1] == '3' && "f32"@[2] == '2');
    assert("f64"@[0] == 'f' && "f64"@[1] == '6' && "f64"@[2] == '4');
    assert("u8"@[0] == 'u' && "i8"@[0] == 'i');
}

/// The scalar type that is written `ident`, or, in words, why there is
/// none.
pub fn scalar_type_token(ident: Option<&str>) -> (r: Result<MemioScalarType, String>)
    ensures
        match ident {
            Some(name) => match spec_scalar_named(name@) {
                Some(ty) => r == Ok::<MemioScalarType, String>(ty),
                None => r matches Err(words) && words@ == "MemioModel: unsupported field type `"@
                    + name@ + "`"@,
            },
            None => r matches Err(words) && words@ == "MemioModel: unsupported field type"@,
        },
{
    match ident {
        Some(name) => {
            if str_eq(name, "u8") {
                Ok(MemioScalarType::U8)
            } else if str_eq(name, "u16") {
                Ok(MemioScalarType::U16)
            } else if str_eq(name, "u32") {
                Ok(MemioScalarType::U32)
            } else if str_eq(name, "u64") {
                Ok(MemioScalarType::U64)
            } else if str_eq(name, "i8") {
                Ok(MemioScalarType::I8)
            } else if str_eq(name, "i16") {
                Ok(MemioScalarType::I16)
            } else if str_eq(name, "i32") {
                Ok(MemioScalarType::I32)
            } else if str_eq(name, "i64") {
                Ok(MemioScalarType::I64)
            } else if str_eq(name, "f32") {
                Ok(MemioScalarType::F32)
            } else if str_eq(name, "f64") {
                Ok(MemioScalarType::F64)
            } else {
                let mut words = "MemioModel: unsupported field type `".to_owned();
                words.append(name);
                words.append("`");
                Err(words)
            }
        },
        None => Err("MemioModel: unsupported field type".to_owned()),
    }
}

/// The type of a field that is written `ty`, or, in words, why it cannot be
/// described: only scalars and arrays of scalars with a literal length can.
pub fn field_type_token(ty: FieldSyntax) -> (r: Result<MemioFieldType, String>)
    ensures
        match ty {
            FieldSyntax::Path(Some(name)) => match spec_scalar_named(name@) {
                Some(scalar) => r == Ok::<MemioFieldType, String>(MemioFieldType::Scalar(scalar)),
                None => r matches Err(words) && words@ == "MemioModel: unsupported field type `"@
                    + name@ + "`"@,
            },
            FieldSyntax::Array { elem: Some(name), len } => match spec_scalar_named(name@) {
                Some(elem) => match len {
                    Some(len) => r == Ok::<MemioFieldType, String>(
                        MemioFieldType::Array { elem, len },
                    ),
                    None => r matches Err(words) && words@
                        == "MemioModel: array length must be a literal integer"@,
                },
                None => r matches Err(words) && words@ == "MemioModel: unsupported field type `"@
                    + name@ + "`"@,
            },
            _ => r matches Err(words) && words@ == "MemioModel: unsupported field type"@,
        },
{
    match ty {
        FieldSyntax::Path(ident) => match scalar_type_token(ident) {
            Ok(scalar) => Ok(MemioFieldType::Scalar(scalar)),
            Err(words) => Err(words),
        },
        FieldSyntax::Array { elem, len } => match scalar_type_token(elem) {
            Ok(elem) => match len {
                Some(len) => Ok(MemioFieldType::Array { elem, len }),
                None => Err("MemioModel: array length must be a literal integer".to_owned()),
            },
            Err(words) => Err(words),
        },
        FieldSyntax::Other => Err("MemioModel: unsupported field type".to_owned()),
    }
}

} // verus!
