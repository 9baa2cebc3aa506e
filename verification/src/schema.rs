//! The schema compiler: a pure, recursive mapping from a record
//! descriptor to the wire schema that is handed to the model provider.
//!
//! The wire schema is the JSON-Schema subset needed here: object / array /
//! string / number / boolean types, a description, an object's `required`
//! names, a string schema's closed `enum` set, and an array's `items`.

use vstd::prelude::*;

use crate::descriptor::{EnumInfo, Parameter, ParameterInfo, StructInfo};

verus! {

/// The wire-level schema type tags.
#[derive(Debug, Clone, Copy, PartialEq, Eq, Structural)]
pub enum SchemaType {
    Object,
    Number,
    String,
    Array,
    Boolean,
}

/// One node of the wire schema graph. Fields that a node does not use are
/// `None` and are meant to be left off the wire entirely.
#[derive(Debug, PartialEq)]
pub struct SchemaDefine {
    pub schema_type: Option<SchemaType>,
    pub description: Option<String>,
    pub enum_values: Option<Vec<String>>,
    pub properties: Option<Vec<Property>>,
    pub required: Option<Vec<String>>,
    pub items: Option<Box<SchemaDefine>>,
}

/// One named property of an object schema. Properties keep the declared
/// field order; the wire format itself is order-insensitive.
#[derive(Debug, PartialEq)]
pub struct Property {
    pub name: String,
    pub schema: SchemaDefine,
}

/// The top-level compiled schema of a record: always an object schema with
/// its properties and its required field names.
#[derive(Debug, PartialEq)]
pub struct FunctionParameters {
    pub schema_type: SchemaType,
    pub properties: Option<Vec<Property>>,
    pub required: Option<Vec<String>>,
}

/// The mathematical image of a [`SchemaDefine`] node: the same shape with
/// every string read as a sequence of characters.
pub struct SchemaV {
    pub schema_type: Option<SchemaType>,
    pub description: Option<Seq<char>>,
    pub enum_values: Option<Seq<Seq<char>>>,
    pub properties: Option<Seq<PropV>>,
    pub required: Option<Seq<Seq<char>>>,
    pub items: Option<Box<SchemaV>>,
}

/// The mathematical image of a [`Property`].
pub struct PropV {
    pub name: Seq<char>,
    pub schema: SchemaV,
}

/// The mathematical image of a [`FunctionParameters`].
pub struct FunctionParametersV {
    pub schema_type: SchemaType,
    pub properties: Option<Seq<PropV>>,
    pub required: Option<Seq<Seq<char>>>,
}

/// The image of a sequence of properties, in order.
pub open spec fn props_view(ps: Seq<Property>) -> Seq<PropV>
    decreases ps,
{
    if ps.len() == 0 {
        Seq::empty()
    } else {
        props_view(ps.drop_last()).push(prop_view(ps.last()))
    }
}

/// The image of one property.
pub open spec fn prop_view(p: Property) -> PropV
    decreases p,
{
    PropV { name: p.name@, schema: schema_define_view(p.schema) }
}

/// The image of a schema node, recursively.
pub open spec fn schema_define_view(s: SchemaDefine) -> SchemaV
    decreases s,
{
    SchemaV {
        schema_type: s.schema_type,
        description: match s.description {
            Some(d) => Some(d@),
            None => None,
        },
        enum_values: match s.enum_values {
            Some(v) => Some(v.deep_view()),
            None => None,
        },
        properties: match s.properties {
            Some(ps) => Some(props_view(ps@)),
            None => None,
        },
        required: match s.required {
            Some(r) => Some(r.deep_view()),
            None => None,
        },
        items: match s.items {
            Some(b) => Some(Box::new(schema_define_view(*b))),
            None => None,
        },
    }
}

impl View for SchemaDefine {
    type V = SchemaV;

    open spec fn view(&self) -> SchemaV {
        schema_define_view(*self)
    }
}

impl DeepView for SchemaDefine {
    type V = SchemaV;

    open spec fn deep_view(&self) -> SchemaV {
        schema_define_view(*self)
    }
}

impl View for Property {
    type V = PropV;

    open spec fn view(&self) -> PropV {
        prop_view(*self)
    }
}

impl DeepView for Property {
    type V = PropV;

    open spec fn deep_view(&self) -> PropV {
        self.view()
    }
}

impl View for FunctionParameters {
    type V = FunctionParametersV;

    open spec fn view(&self) -> FunctionParametersV {
        FunctionParametersV {
            schema_type: self.schema_type,
            properties: match self.properties {
                Some(ps) => Some(props_view(ps@)),
                None => None,
            },
            required: match self.required {
                Some(r) => Some(r.deep_view()),
                None => None,
            },
        }
    }
}

/// The fixed lookup table from a Rust scalar type name to its wire type:
/// string-like names map to `String`, the integer and floating widths to
/// `Number`, `bool` to `Boolean`; anything else is unsupported.
pub open spec fn spec_scalar_type(ty: Seq<char>) -> Option<SchemaType> {
    if ty == "String"@ || ty == "char"@ {
        Some(SchemaType::String)
    } else if ty == "u8"@ || ty == "i8"@ || ty == "u16"@ || ty == "i16"@ || ty == "u32"@
        || ty == "i32"@ || ty == "u64"@ || ty == "i64"@ || ty == "u128"@ || ty == "i128"@
        || ty == "usize"@ || ty == "isize"@ || ty == "f32"@ || ty == "f64"@ {
        Some(SchemaType::Number)
    } else if ty == "bool"@ {
        Some(SchemaType::Boolean)
    } else {
        None
    }
}

/// The contents of a type name of the shape `<prefix>...>`, or nothing
/// where the name has another shape.
pub open spec fn spec_wrapped(ty: Seq<char>, prefix: Seq<char>) -> Option<Seq<char>> {
    if ty.len() > prefix.len() && ty.subrange(0, prefix.len() as int) == prefix && ty[ty.len()
        - 1] == '>' {
        Some(ty.subrange(prefix.len() as int, ty.len() - 1))
    } else {
        None
    }
}

/// Strips one level of `Option<...>` from a type name, if present.
pub open spec fn spec_base_type(ty: Seq<char>) -> Seq<char> {
    match spec_wrapped(ty, "Option<"@) {
        Some(b) => b,
        None => ty,
    }
}

/// The names of the primitive Rust types that a leaf field may use
/// directly, wrapped in `Option<...>`, or wrapped in `Vec<...>`.
pub open spec fn spec_simple_type(ty: Seq<char>) -> bool {
    ||| ty == "bool"@
    ||| ty == "char"@
    ||| ty == "f32"@
    ||| ty == "f64"@
    ||| ty == "i8"@
    ||| ty == "i16"@
    ||| ty == "i32"@
    ||| ty == "i64"@
    ||| ty == "i128"@
    ||| ty == "isize"@
    ||| ty == "str"@
    ||| ty == "String"@
    ||| ty == "u8"@
    ||| ty == "u16"@
    ||| ty == "u32"@
    ||| ty == "u64"@
    ||| ty == "u128"@
    ||| ty == "usize"@
}

/// Whether a declared field type needs a nested descriptor of its own: it
/// is neither a primitive name nor a primitive wrapped in one level of
/// `Option<...>` or `Vec<...>`.
pub open spec fn spec_is_complex(ty: Seq<char>) -> bool {
    !(spec_simple_type(ty) || (match spec_wrapped(ty, "Option<"@) {
        Some(b) => spec_simple_type(b),
        None => false,
    }) || (match spec_wrapped(ty, "Vec<"@) {
        Some(b) => spec_simple_type(b),
        None => false,
    }))
}

/// The name under which a field appears in its parent's property map.
pub open spec fn spec_param_name(p: Parameter) -> Seq<char> {
    match p {
        Parameter::Struct(s) => s.name@,
        Parameter::Field(f) => f.name@,
        Parameter::Enum(e) => e.title@,
    }
}

/// Whether a field is marked optional, i.e. left out of its parent's
/// `required` names.
pub open spec fn spec_param_is_optional(p: Parameter) -> bool {
    match p {
        Parameter::Struct(s) => s.is_optional,
        Parameter::Field(f) => f.is_optional,
        Parameter::Enum(e) => e.is_optional,
    }
}

/// The `required` names of a record: the names of its non-optional fields,
/// in declared order.
pub open spec fn spec_required(ps: Seq<Parameter>) -> Seq<Seq<char>>
    decreases ps.len(),
{
    if ps.len() == 0 {
        Seq::empty()
    } else {
        let rest = spec_required(ps.drop_last());
        if spec_param_is_optional(ps.last()) {
            rest
        } else {
            rest.push(spec_param_name(ps.last()))
        }
    }
}

/// An empty schema node: every part absent.
pub open spec fn spec_empty_schema() -> SchemaV {
    SchemaV {
        schema_type: None,
        description: None,
        enum_values: None,
        properties: None,
        required: None,
        items: None,
    }
}

/// The compiled schema of a primitive leaf field. Meaningful only where
/// the field's base type is supported.
pub open spec fn spec_field_schema(f: ParameterInfo) -> SchemaV {
    let base = spec_base_type(f.ty@);
    if f.is_list {
        SchemaV {
            schema_type: Some(SchemaType::Array),
            description: Some(f.comment@),
            items: Some(
                Box::new(
                    SchemaV { schema_type: spec_scalar_type(base), ..spec_empty_schema() },
                ),
            ),
            ..spec_empty_schema()
        }
    } else {
        SchemaV {
            schema_type: spec_scalar_type(base),
            description: Some(f.comment@),
            ..spec_empty_schema()
        }
    }
}

/// The compiled schema of an enumeration field: a string schema carrying
/// the closed tag set in declared order, wrapped in an array schema where
/// the field is a list (the tag set then sits on the inner items schema
/// only).
pub open spec fn spec_enum_schema(e: EnumInfo) -> SchemaV {
    if e.is_list {
        SchemaV {
            schema_type: Some(SchemaType::Array),
            description: Some(e.description@),
            items: Some(
                Box::new(
                    SchemaV {
                        schema_type: Some(SchemaType::String),
                        enum_values: Some(e.values.deep_view()),
                        ..spec_empty_schema()
                    },
                ),
            ),
            ..spec_empty_schema()
        }
    } else {
        SchemaV {
            schema_type: Some(SchemaType::String),
            description: Some(e.description@),
            enum_values: Some(e.values.deep_view()),
            ..spec_empty_schema()
        }
    }
}

/// The compiled schema of a nested record field: an object schema whose
/// properties are the recursive compilation of the record's own fields and
/// whose `required` names are computed from the record's own optional
/// flags, independently of the record's place in its parent. A list of
/// records wraps the object schema in an array schema.
pub open spec fn spec_struct_schema(s: StructInfo) -> SchemaV
    decreases s,
{
    if s.is_list {
        SchemaV {
            schema_type: Some(SchemaType::Array),
            description: Some(s.description@),
            items: Some(
                Box::new(
                    SchemaV {
                        schema_type: Some(SchemaType::Object),
                        properties: Some(spec_properties(s.parameters@)),
                        required: Some(spec_required(s.parameters@)),
                        ..spec_empty_schema()
                    },
                ),
            ),
            ..spec_empty_schema()
        }
    } else {
        SchemaV {
            schema_type: Some(SchemaType::Object),
            description: Some(s.description@),
            properties: Some(spec_properties(s.parameters@)),
            required: Some(spec_required(s.parameters@)),
            ..spec_empty_schema()
        }
    }
}

/// The compiled schema of one field, by its variant.
pub open spec fn spec_prop(p: Parameter) -> PropV
    decreases p,
{
    match p {
        Parameter::Field(f) => PropV { name: f.name@, schema: spec_field_schema(f) },
        Parameter::Enum(e) => PropV { name: e.title@, schema: spec_enum_schema(e) },
        Parameter::Struct(s) => PropV { name: s.name@, schema: spec_struct_schema(s) },
    }
}

/// The property map of a record: each field compiled, in declared order.
pub open spec fn spec_properties(ps: Seq<Parameter>) -> Seq<PropV>
    decreases ps,
{
    if ps.len() == 0 {
        Seq::empty()
    } else {
        spec_properties(ps.drop_last()).push(spec_prop(ps.last()))
    }
}

/// Whether one field compiles: a leaf needs a supported base type, an
/// enumeration always compiles, a record compiles when all its fields do.
pub open spec fn spec_param_ok(p: Parameter) -> bool
    decreases p,
{
    match p {
        Parameter::Field(f) => spec_scalar_type(spec_base_type(f.ty@)) is Some,
        Parameter::Enum(_) => true,
        Parameter::Struct(s) => spec_params_ok(s.parameters@),
    }
}

/// Whether every field in the sequence compiles.
pub open spec fn spec_params_ok(ps: Seq<Parameter>) -> bool
    decreases ps,
{
    forall|i: int| 0 <= i < ps.len() ==> spec_param_ok(#[trigger] ps[i])
}

/// Whether `name` is the base type of some unsupported leaf under `p`:
/// exactly the names a compilation failure may report.
pub open spec fn spec_param_bad(p: Parameter, name: Seq<char>) -> bool
    decreases p,
{
    match p {
        Parameter::Field(f) => spec_scalar_type(spec_base_type(f.ty@)) is None && name
            == spec_base_type(f.ty@),
        Parameter::Enum(_) => false,
        Parameter::Struct(s) => exists|i: int|
            0 <= i < s.parameters@.len() && spec_param_bad(#[trigger] s.parameters@[i], name),
    }
}

/// The fully compiled top-level schema of a record descriptor.
pub open spec fn spec_function_parameters(t: StructInfo) -> FunctionParametersV {
    FunctionParametersV {
        schema_type: SchemaType::Object,
        properties: Some(spec_properties(t.parameters@)),
        required: Some(spec_required(t.parameters@)),
    }
}

/// The property map is as long as the field list and compiles each field
/// in place, in declared order.
pub proof fn lemma_properties_index(ps: Seq<Parameter>, i: int)
    requires
        0 <= i < ps.len(),
    ensures
        spec_properties(ps).len() == ps.len(),
        spec_properties(ps)[i] == spec_prop(ps[i]),
    decreases ps.len(),
{
    lemma_properties_len(ps);
    if i < ps.len() - 1 {
        lemma_properties_index(ps.drop_last(), i);
    }
}

/// The property map of a record has exactly one entry per field.
pub proof fn lemma_properties_len(ps: Seq<Parameter>)
    ensures
        spec_properties(ps).len() == ps.len(),
    decreases ps.len(),
{
    if ps.len() > 0 {
        lemma_properties_len(ps.drop_last());
    }
}

/// A name stands in a record's `required` list exactly when some field of
/// the record carries that name and is not optional.
pub proof fn lemma_required_contains(ps: Seq<Parameter>, n: Seq<char>)
    ensures
        spec_required(ps).contains(n) <==> (exists|i: int|
            0 <= i < ps.len() && !spec_param_is_optional(#[trigger] ps[i]) && spec_param_name(
                ps[i],
            ) == n),
    decreases ps.len(),
{
    if ps.len() == 0 {
    } else {
        lemma_required_contains(ps.drop_last(), n);
        let rest = spec_required(ps.drop_last());
        if spec_required(ps).contains(n) {
            let k = choose|k: int| 0 <= k < spec_required(ps).len() && spec_required(ps)[k] == n;
            if k < rest.len() {
                assert(rest.contains(n));
                let i = choose|i: int|
                    0 <= i < ps.drop_last().len() && !spec_param_is_optional(
                        #[trigger] ps.drop_last()[i],
                    ) && spec_param_name(ps.drop_last()[i]) == n;
                assert(ps[i] == ps.drop_last()[i]);
            } else {
                assert(!spec_param_is_optional(ps[ps.len() - 1]) && spec_param_name(
                    ps[ps.len() - 1],
                ) == n);
            }
        }
        if exists|i: int|
            0 <= i < ps.len() && !spec_param_is_optional(#[trigger] ps[i]) && spec_param_name(
                ps[i],
            ) == n {
            let i = choose|i: int|
                0 <= i < ps.len() && !spec_param_is_optional(#[trigger] ps[i]) && spec_param_name(
                    ps[i],
                ) == n;
            if i < ps.len() - 1 {
                assert(ps.drop_last()[i] == ps[i]);
                assert(rest.contains(n));
                let k = choose|k: int| 0 <= k < rest.len() && rest[k] == n;
                assert(spec_required(ps)[k] == n);
            } else {
                assert(spec_required(ps).last() == n);
            }
        }
    }
}

/// Schema compilation is deterministic: any two compiled schemas of the
/// same record descriptor are equal.
pub proof fn lemma_compile_deterministic(
    t: StructInfo,
    a: FunctionParameters,
    b: FunctionParameters,
)
    requires
        a@ == spec_function_parameters(t),
        b@ == spec_function_parameters(t),
    ensures
        a@ == b@,
{
}

/// A field marked optional is left out of its parent's `required` names
/// but still compiled into the property map, in place and under its own
/// name. The field names of the record are assumed unique, as the
/// descriptor invariant demands.
pub proof fn lemma_optional_field_not_required(ps: Seq<Parameter>, i: int)
    requires
        0 <= i < ps.len(),
        spec_param_is_optional(ps[i]),
        forall|j: int|
            0 <= j < ps.len() && spec_param_name(#[trigger] ps[j]) == spec_param_name(ps[i])
                ==> j == i,
    ensures
        !spec_required(ps).contains(spec_param_name(ps[i])),
        spec_properties(ps).len() == ps.len(),
        spec_properties(ps)[i] == spec_prop(ps[i]),
        spec_properties(ps)[i].name == spec_param_name(ps[i]),
{
    lemma_required_contains(ps, spec_param_name(ps[i]));
    lemma_properties_index(ps, i);
}

/// A field with its optional flag replaced; nothing else changes.
pub open spec fn spec_param_with_optional(p: Parameter, is_optional: bool) -> Parameter {
    match p {
        Parameter::Struct(s) => Parameter::Struct((StructInfo { is_optional, ..s })),
        Parameter::Field(f) => Parameter::Field((ParameterInfo { is_optional, ..f })),
        Parameter::Enum(e) => Parameter::Enum((EnumInfo { is_optional, ..e })),
    }
}

/// Optionality governs presence in `required` alone: a field compiles to
/// the same schema, under the same name, whatever its optional flag says.
pub proof fn lemma_optional_only_presence(p: Parameter, is_optional: bool)
    ensures
        spec_prop(spec_param_with_optional(p, is_optional)).schema == spec_prop(p).schema,
        spec_prop(spec_param_with_optional(p, is_optional)).name == spec_prop(p).name,
{
}

/// A list-of-primitive field compiles to an array schema whose `items` is
/// the bare scalar schema of the leaf's base type.
pub proof fn lemma_list_field_schema(f: ParameterInfo)
    requires
        f.is_list,
    ensures
        spec_field_schema(f) == (SchemaV {
            schema_type: Some(SchemaType::Array),
            description: Some(f.comment@),
            items: Some(
                Box::new(
                    SchemaV {
                        schema_type: spec_scalar_type(spec_base_type(f.ty@)),
                        ..spec_empty_schema()
                    },
                ),
            ),
            ..spec_empty_schema()
        }),
{
}

/// A nested record field is compiled in place, under its own name; its
/// name stands in the parent's `required` names exactly when the field is
/// not optional; and the nested object schema carries the nested record's
/// own `required` names, computed from the nested record's own optional
/// flags alone. The field names of the parent are assumed unique, as the
/// descriptor invariant demands.
pub proof fn lemma_nested_record_field(ps: Seq<Parameter>, i: int, s: StructInfo)
    requires
        0 <= i < ps.len(),
        ps[i] == Parameter::Struct(s),
        forall|j: int| 0 <= j < ps.len() && spec_param_name(#[trigger] ps[j]) == s.name@ ==> j
            == i,
    ensures
        spec_required(ps).contains(s.name@) <==> !s.is_optional,
        spec_properties(ps).len() == ps.len(),
        spec_properties(ps)[i].name == s.name@,
        spec_properties(ps)[i].schema == spec_struct_schema(s),
        !s.is_list ==> spec_properties(ps)[i].schema.required == Some(
            spec_required(s.parameters@),
        ),
{
    lemma_required_contains(ps, s.name@);
    lemma_properties_index(ps, i);
    if spec_required(ps).contains(s.name@) {
        let k = choose|k: int|
            0 <= k < ps.len() && !spec_param_is_optional(#[trigger] ps[k]) && spec_param_name(
                ps[k],
            ) == s.name@;
        assert(k == i);
    }
    if !s.is_optional {
        assert(!spec_param_is_optional(ps[i]) && spec_param_name(ps[i]) == s.name@);
    }
}

/// An enumeration field compiles to a string schema carrying the tag set
/// in declared order; a list of enumerations wraps that schema in an
/// array whose `items` carries the tag set instead of the outer node.
pub proof fn lemma_enum_field_schema(e: EnumInfo)
    ensures
        !e.is_list ==> spec_enum_schema(e) == (SchemaV {
            schema_type: Some(SchemaType::String),
            description: Some(e.description@),
            enum_values: Some(e.values.deep_view()),
            ..spec_empty_schema()
        }),
        e.is_list ==> spec_enum_schema(e) == (SchemaV {
            schema_type: Some(SchemaType::Array),
            description: Some(e.description@),
            items: Some(
                Box::new(
                    SchemaV {
                        schema_type: Some(SchemaType::String),
                        enum_values: Some(e.values.deep_view()),
                        ..spec_empty_schema()
                    },
                ),
            ),
            ..spec_empty_schema()
        }),
{
}

/// A failure of schema compilation itself: a program bug in the
/// descriptor, never a model mistake, so it is not retried.
#[derive(Debug, PartialEq)]
pub enum SchemaError {
    /// A primitive leaf's base type has no wire-type mapping; carries
    /// that type's name.
    UnsupportedType(String),
}

/// Content equality of two string slices.
fn str_eq(a: &str, b: &str) -> (r: bool)
    ensures
        r == (a@ == b@),
{
    let x = a.to_owned();
    let y = b.to_owned();
    x == y
}

/// Maps a scalar type name to its wire type, or reports it unsupported.
pub fn convert_parameter_type(info: &str) -> (r: Result<SchemaType, SchemaError>)
    ensures
        match spec_scalar_type(info@) {
            Some(t) => r == Ok::<SchemaType, SchemaError>(t),
            None => (r matches Err(SchemaError::UnsupportedType(u)) && u@ == info@),
        },
{
    if str_eq(info, "String") || str_eq(info, "char") {
        Ok(SchemaType::String)
    } else if str_eq(info, "u8") || str_eq(info, "i8") || str_eq(info, "u16") || str_eq(
        info,
        "i16",
    ) || str_eq(info, "u32") || str_eq(info, "i32") || str_eq(info, "u64") || str_eq(info, "i64")
        || str_eq(info, "u128") || str_eq(info, "i128") || str_eq(info, "usize") || str_eq(
        info,
        "isize",
    ) || str_eq(info, "f32") || str_eq(info, "f64") {
        Ok(SchemaType::Number)
    } else if str_eq(info, "bool") {
        Ok(SchemaType::Boolean)
    } else {
        Err(SchemaError::UnsupportedType(info.to_owned()))
    }
}

/// The contents of `ty` where it has the shape `<prefix>...>`.
fn wrapped_base(ty: &str, prefix: &str) -> (r: Option<String>)
    ensures
        match spec_wrapped(ty@, prefix@) {
            Some(b) => r matches Some(s) && s@ == b,
            None => r is None,
        },
{
    let n = ty.unicode_len();
    let p = prefix.unicode_len();
    if n > p {
        let head = ty.substring_char(0, p);
        let last = ty.get_char(n - 1);
        if str_eq(head, prefix) && last == '>' {
            return Some(ty.substring_char(p, n - 1).to_owned());
        }
    }
    None
}

/// The base type of a leaf field: its type name with one level of
/// `Option<...>` stripped, if present.
pub fn get_base_type(field_info: &ParameterInfo) -> (r: String)
    ensures
        r@ == spec_base_type(field_info.ty@),
{
    match wrapped_base(field_info.ty.as_str(), "Option<") {
        Some(base) => base,
        None => field_info.ty.clone(),
    }
}

/// Whether `ty` is one of the primitive type names.
fn is_simple_type_name(ty: &str) -> (r: bool)
    ensures
        r == spec_simple_type(ty@),
{
    str_eq(ty, "bool") || str_eq(ty, "char") || str_eq(ty, "f32") || str_eq(ty, "f64") || str_eq(
        ty,
        "i8",
    ) || str_eq(ty, "i16") || str_eq(ty, "i32") || str_eq(ty, "i64") || str_eq(ty, "i128")
        || str_eq(ty, "isize") || str_eq(ty, "str") || str_eq(ty, "String") || str_eq(ty, "u8")
        || str_eq(ty, "u16") || str_eq(ty, "u32") || str_eq(ty, "u64") || str_eq(ty, "u128")
        || str_eq(ty, "usize")
}

/// Whether a declared field type needs a nested descriptor of its own,
/// rather than compiling as a primitive leaf: anything but a primitive
/// name, alone or wrapped in one level of `Option<...>` or `Vec<...>`.
pub fn is_complex_type(field_type: String) -> (r: bool)
    ensures
        r == spec_is_complex(field_type@),
{
    if is_simple_type_name(field_type.as_str()) {
        return false;
    }
    if let Some(base) = wrapped_base(field_type.as_str(), "Option<") {
        if is_simple_type_name(base.as_str()) {
            return false;
        }
    }
    if let Some(base) = wrapped_base(field_type.as_str(), "Vec<") {
        if is_simple_type_name(base.as_str()) {
            return false;
        }
    }
    true
}

/// The `required` names of a record: its non-optional field names, in
/// declared order.
pub fn get_required_properties(info: &StructInfo) -> (r: Vec<String>)
    ensures
        r.deep_view() == spec_required(info.parameters@),
{
    let mut required: Vec<String> = Vec::new();
    let n = info.parameters.len();
    let mut idx: usize = 0;
    while idx < n
        invariant
            n == info.parameters@.len(),
            idx <= n,
            required.deep_view() == spec_required(info.parameters@.take(idx as int)),
        decreases n - idx,
    {
        let ghost pre = info.parameters@.take(idx as int);
        let ghost cur = info.parameters@.take(idx as int + 1);
        proof {
            assert(cur.drop_last() =~= pre);
            assert(cur.last() == info.parameters@[idx as int]);
        }
        let ghost dv = required.deep_view();
        match &info.parameters[idx] {
            Parameter::Field(field_info) => {
                if !field_info.is_optional {
                    required.push(field_info.name.clone());
                }
            },
            Parameter::Struct(struct_info) => {
                if !struct_info.is_optional {
                    required.push(struct_info.name.clone());
                }
            },
            Parameter::Enum(enum_info) => {
                if !enum_info.is_optional {
                    required.push(enum_info.title.clone());
                }
            },
        }
        proof {
            if spec_param_is_optional(cur.last()) {
                assert(required.deep_view() =~= spec_required(cur));
            } else {
                assert(required.deep_view() =~= dv.push(spec_param_name(cur.last())));
                assert(required.deep_view() =~= spec_required(cur));
            }
        }
        idx += 1;
    }
    proof {
        assert(info.parameters@.take(n as int) =~= info.parameters@);
    }
    required
}

/// An empty executable schema node.
fn empty_schema() -> (r: SchemaDefine)
    ensures
        r@ == spec_empty_schema(),
{
    SchemaDefine {
        schema_type: None,
        description: None,
        enum_values: None,
        properties: None,
        required: None,
        items: None,
    }
}

/// Builds the schema of a primitive leaf whose wire type is already
/// resolved: the bare scalar schema, or an array of it when the leaf is a
/// list.
fn build_field_schema(parameter_type: SchemaType, comment: &String, is_list: bool) -> (r:
    SchemaDefine)
    ensures
        r@ == (if is_list {
            SchemaV {
                schema_type: Some(SchemaType::Array),
                description: Some(comment@),
                items: Some(
                    Box::new(
                        SchemaV { schema_type: Some(parameter_type), ..spec_empty_schema() },
                    ),
                ),
                ..spec_empty_schema()
            }
        } else {
            SchemaV {
                schema_type: Some(parameter_type),
                description: Some(comment@),
                ..spec_empty_schema()
            }
        }),
{
    if is_list {
        let mut inner = empty_schema();
        inner.schema_type = Some(parameter_type);
        let ghost gi = inner;
        let mut outer = empty_schema();
        outer.schema_type = Some(SchemaType::Array);
        outer.description = Some(comment.clone());
        outer.items = Some(Box::new(inner));
        proof {
            assert(schema_define_view(gi) == (SchemaV {
                schema_type: Some(parameter_type),
                ..spec_empty_schema()
            }));
        }
        outer
    } else {
        let mut s = empty_schema();
        s.schema_type = Some(parameter_type);
        s.description = Some(comment.clone());
        s
    }
}

/// Builds the schema of an enumeration field: a string schema carrying
/// the tag set, or an array of it when the field is a list.
fn build_enum_schema(description: &String, values: &Vec<String>, is_list: bool) -> (r:
    SchemaDefine)
    ensures
        r@ == (if is_list {
            SchemaV {
                schema_type: Some(SchemaType::Array),
                description: Some(description@),
                items: Some(
                    Box::new(
                        SchemaV {
                            schema_type: Some(SchemaType::String),
                            enum_values: Some(values.deep_view()),
                            ..spec_empty_schema()
                        },
                    ),
                ),
                ..spec_empty_schema()
            }
        } else {
            SchemaV {
                schema_type: Some(SchemaType::String),
                description: Some(description@),
                enum_values: Some(values.deep_view()),
                ..spec_empty_schema()
            }
        }),
{
    if is_list {
        let mut inner = empty_schema();
        inner.schema_type = Some(SchemaType::String);
        inner.enum_values = Some(values.clone());
        let ghost gi = inner;
        let mut outer = empty_schema();
        outer.schema_type = Some(SchemaType::Array);
        outer.description = Some(description.clone());
        outer.items = Some(Box::new(inner));
        proof {
            assert(schema_define_view(gi) == (SchemaV {
                schema_type: Some(SchemaType::String),
                enum_values: Some(values.deep_view()),
                ..spec_empty_schema()
            }));
        }
        outer
    } else {
        let mut s = empty_schema();
        s.schema_type = Some(SchemaType::String);
        s.description = Some(description.clone());
        s.enum_values = Some(values.clone());
        s
    }
}

/// Builds the schema of a nested record field from its already-compiled
/// properties and `required` names: the object schema, or an array of it
/// when the field is a list.
fn build_struct_schema(
    description: &String,
    props: Vec<Property>,
    req: Vec<String>,
    is_list: bool,
) -> (r: SchemaDefine)
    ensures
        r@ == (if is_list {
            SchemaV {
                schema_type: Some(SchemaType::Array),
                description: Some(description@),
                items: Some(
                    Box::new(
                        SchemaV {
                            schema_type: Some(SchemaType::Object),
                            properties: Some(props_view(props@)),
                            required: Some(req.deep_view()),
                            ..spec_empty_schema()
                        },
                    ),
                ),
                ..spec_empty_schema()
            }
        } else {
            SchemaV {
                schema_type: Some(SchemaType::Object),
                description: Some(description@),
                properties: Some(props_view(props@)),
                required: Some(req.deep_view()),
                ..spec_empty_schema()
            }
        }),
{
    if is_list {
        let mut inner = empty_schema();
        inner.schema_type = Some(SchemaType::Object);
        inner.properties = Some(props);
        inner.required = Some(req);
        let ghost gi = inner;
        let mut outer = empty_schema();
        outer.schema_type = Some(SchemaType::Array);
        outer.description = Some(description.clone());
        outer.items = Some(Box::new(inner));
        proof {
            assert(schema_define_view(gi) == (SchemaV {
                schema_type: Some(SchemaType::Object),
                properties: Some(props_view(gi.properties->Some_0@)),
                required: Some(gi.required->Some_0.deep_view()),
                ..spec_empty_schema()
            }));
        }
        outer
    } else {
        let mut s = empty_schema();
        s.schema_type = Some(SchemaType::Object);
        s.description = Some(description.clone());
        s.properties = Some(props);
        s.required = Some(req);
        s
    }
}

/// Compiles every field of a record into its property map, in declared
/// order; fails on the first leaf whose base type is unsupported, naming
/// that type.
pub fn get_response_model_parameters(t: &StructInfo) -> (r: Result<Vec<Property>, SchemaError>)
    ensures
        spec_params_ok(t.parameters@) ==> (r matches Ok(ps) && props_view(ps@)
            == spec_properties(t.parameters@)),
        !spec_params_ok(t.parameters@) ==> (r matches Err(e) && e matches SchemaError::UnsupportedType(u)
            && exists|i: int|
            0 <= i < t.parameters@.len() && spec_param_bad(#[trigger] t.parameters@[i], u@)),
    decreases *t,
{
    let mut properties: Vec<Property> = Vec::new();
    let n = t.parameters.len();
    let mut idx: usize = 0;
    while idx < n
        invariant
            n == t.parameters@.len(),
            idx <= n,
            forall|j: int| 0 <= j < idx ==> spec_param_ok(#[trigger] t.parameters@[j]),
            props_view(properties@) == spec_properties(t.parameters@.take(idx as int)),
        decreases n - idx,
    {
        let ghost pre = t.parameters@.take(idx as int);
        let ghost cur = t.parameters@.take(idx as int + 1);
        let ghost param = t.parameters@[idx as int];
        proof {
            assert(cur.drop_last() =~= pre);
            assert(cur.last() == param);
        }
        let ghost before = properties@;
        match &t.parameters[idx] {
            Parameter::Field(field_info) => {
                let base_type = get_base_type(field_info);
                let parameter_type = match convert_parameter_type(base_type.as_str()) {
                    Ok(w) => w,
                    Err(e) => {
                        proof {
                            assert(spec_param_bad(param, spec_base_type(field_info.ty@)));
                            assert(!spec_param_ok(param));
                            assert(!spec_params_ok(t.parameters@));
                        }
                        return Err(e);
                    },
                };
                let schema = build_field_schema(parameter_type, &field_info.comment,
                    field_info.is_list);
                properties.push(Property { name: field_info.name.clone(), schema });
                proof {
                    assert(prop_view(properties@.last()) == spec_prop(param));
                }
            },
            Parameter::Enum(enum_info) => {
                let schema = build_enum_schema(&enum_info.description, &enum_info.values,
                    enum_info.is_list);
                properties.push(Property { name: enum_info.title.clone(), schema });
                proof {
                    assert(prop_view(properties@.last()) == spec_prop(param));
                }
            },
            Parameter::Struct(struct_info) => {
                let nested = match get_response_model_parameters(struct_info) {
                    Ok(ps) => ps,
                    Err(e) => {
                        proof {
                            assert(!spec_param_ok(param));
                            assert(!spec_params_ok(t.parameters@));
                        }
                        return Err(e);
                    },
                };
                let nested_required = get_required_properties(struct_info);
                let schema = build_struct_schema(&struct_info.description, nested,
                    nested_required, struct_info.is_list);
                properties.push(Property { name: struct_info.name.clone(), schema });
                proof {
                    assert(prop_view(properties@.last()) == spec_prop(param));
                }
            },
        }
        proof {
            assert(properties@.drop_last() =~= before);
            assert(props_view(properties@) == props_view(before).push(spec_prop(param)));
            assert(props_view(properties@) == spec_properties(cur));
        }
        idx += 1;
    }
    proof {
        assert(t.parameters@.take(n as int) =~= t.parameters@);
    }
    Ok(properties)
}

/// Compiles a record descriptor to its top-level wire schema: an object
/// schema with the record's compiled properties and its `required` names.
/// Fails exactly where some leaf's base type is unsupported, naming that
/// type.
pub fn get_response_model(t: &StructInfo) -> (r: Result<FunctionParameters, SchemaError>)
    ensures
        spec_params_ok(t.parameters@) ==> (r matches Ok(fp) && fp@ == spec_function_parameters(
            *t,
        )),
        !spec_params_ok(t.parameters@) ==> (r matches Err(e) && e matches SchemaError::UnsupportedType(u)
            && exists|i: int|
            0 <= i < t.parameters@.len() && spec_param_bad(#[trigger] t.parameters@[i], u@)),
{
    let properties = match get_response_model_parameters(t) {
        Ok(ps) => ps,
        Err(e) => {
            return Err(e);
        },
    };
    let required_fields = get_required_properties(t);
    Ok(
        FunctionParameters {
            schema_type: SchemaType::Object,
            properties: Some(properties),
            required: Some(required_fields),
        },
    )
}

} // verus!
