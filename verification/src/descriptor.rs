//! The type-descriptor intermediate representation: a language-neutral
//! description of a user-defined record type, its fields, nested records
//! and enumerations. A descriptor tree is built once per target type (by
//! hand or by a registration layer) and handed to the schema compiler.

use vstd::prelude::*;

verus! {

/// A type that can describe its own shape as a descriptor tree and check
/// its own business rules once a candidate value has been decoded.
///
/// Implementations are supplied by the caller; the library states nothing
/// about them and handles every possible result.
pub trait InstructMacro: Sized {
    /// The descriptor tree for this type.
    fn get_info() -> InstructMacroResult;

    /// The caller's validation rules; `Err` carries a human-readable
    /// reason that is fed back to the model. Where several rules apply to
    /// one value, an implementation short-circuits on the first failing
    /// rule and reports that rule's reason alone.
    fn validate(&self) -> Result<(), String>;
}

/// The descriptor of a whole type: either a record or an enumeration.
#[derive(Debug, PartialEq)]
pub enum InstructMacroResult {
    Struct(StructInfo),
    Enum(EnumInfo),
}

/// The descriptor of a record type: its name, doc comment and ordered
/// fields, plus the optional / list modifiers that apply where the record
/// is embedded as a field of another record.
#[derive(Debug, PartialEq)]
pub struct StructInfo {
    pub name: String,
    pub description: String,
    pub parameters: Vec<Parameter>,
    pub is_optional: bool,
    pub is_list: bool,
}

/// One field of a record: a primitive leaf, a nested record or a nested
/// enumeration.
#[derive(Debug, PartialEq)]
pub enum Parameter {
    Struct(StructInfo),
    Field(ParameterInfo),
    Enum(EnumInfo),
}

/// The descriptor of a primitive leaf field: its name, the name of its
/// Rust type (possibly wrapped in `Option<...>`), its doc comment and the
/// optional / list modifiers.
#[derive(Debug, Clone, PartialEq)]
pub struct ParameterInfo {
    pub name: String,
    pub ty: String,
    pub comment: String,
    pub is_optional: bool,
    pub is_list: bool,
}

/// The descriptor of a closed string enumeration: its title (the field
/// name once embedded), the tag values in declared order, the name of the
/// enum type, its doc comment and the optional / list modifiers.
#[derive(Debug, Clone, PartialEq)]
pub struct EnumInfo {
    pub title: String,
    pub values: Vec<String>,
    pub ty: String,
    pub description: String,
    pub is_optional: bool,
    pub is_list: bool,
}

/// Raw facts about one declared field, as a registration layer collects
/// them before the descriptor tree is assembled.
#[derive(Debug, Clone, PartialEq)]
pub struct FieldInfo {
    pub name: String,
    pub description: String,
    pub ty: String,
    pub is_complex: bool,
    pub is_optional: bool,
    pub is_list: bool,
}

impl StructInfo {
    /// Embeds this record as a field named `new_name` of a parent record.
    pub fn wrap_info(self, new_name: String) -> (p: Parameter)
        ensures
            p == Parameter::Struct((StructInfo { name: new_name, ..self })),
    {
        let mut info = self;
        info.name = new_name;
        Parameter::Struct(info)
    }

    /// Replaces the description, unless the new one is empty.
    pub fn override_description(self, new_description: String) -> (r: StructInfo)
        ensures
            r == (StructInfo {
                description: if new_description@.len() > 0 {
                    new_description
                } else {
                    self.description
                },
                ..self
            }),
    {
        let mut info = self;
        if !new_description.as_str().is_empty() {
            info.description = new_description;
        }
        info
    }

    /// Sets the optional modifier.
    pub fn set_optional(self, is_optional: bool) -> (r: StructInfo)
        ensures
            r == (StructInfo { is_optional, ..self }),
    {
        let mut info = self;
        info.is_optional = is_optional;
        info
    }

    /// Sets the list modifier.
    pub fn set_list(self, is_list: bool) -> (r: StructInfo)
        ensures
            r == (StructInfo { is_list, ..self }),
    {
        let mut info = self;
        info.is_list = is_list;
        info
    }
}

impl EnumInfo {
    /// Embeds this enumeration as a field named `new_name` of a record.
    pub fn wrap_info(self, new_name: String) -> (p: Parameter)
        ensures
            p == Parameter::Enum((EnumInfo { title: new_name, ..self })),
    {
        let mut info = self;
        info.title = new_name;
        Parameter::Enum(info)
    }

    /// Replaces the description, unless the new one is empty.
    pub fn override_description(self, new_description: String) -> (r: EnumInfo)
        ensures
            r == (EnumInfo {
                description: if new_description@.len() > 0 {
                    new_description
                } else {
                    self.description
                },
                ..self
            }),
    {
        let mut info = self;
        if !new_description.as_str().is_empty() {
            info.description = new_description;
        }
        info
    }

    /// Sets the optional modifier.
    pub fn set_optional(self, is_optional: bool) -> (r: EnumInfo)
        ensures
            r == (EnumInfo { is_optional, ..self }),
    {
        let mut info = self;
        info.is_optional = is_optional;
        info
    }

    /// Sets the list modifier.
    pub fn set_list(self, is_list: bool) -> (r: EnumInfo)
        ensures
            r == (EnumInfo { is_list, ..self }),
    {
        let mut info = self;
        info.is_list = is_list;
        info
    }
}

impl InstructMacroResult {
    /// Embeds the described type as a field named `new_name` of a record.
    pub fn wrap_info(self, new_name: String) -> (p: Parameter)
        ensures
            p == match self {
                InstructMacroResult::Struct(s) => Parameter::Struct(
                    (StructInfo { name: new_name, ..s }),
                ),
                InstructMacroResult::Enum(e) => Parameter::Enum(
                    (EnumInfo { title: new_name, ..e }),
                ),
            },
    {
        match self {
            InstructMacroResult::Struct(struct_info) => struct_info.wrap_info(new_name),
            InstructMacroResult::Enum(enum_info) => enum_info.wrap_info(new_name),
        }
    }

    /// Replaces the description, unless the new one is empty.
    pub fn override_description(self, new_description: String) -> (r: InstructMacroResult)
        ensures
            r == match self {
                InstructMacroResult::Struct(s) => InstructMacroResult::Struct(
                    (StructInfo {
                        description: if new_description@.len() > 0 {
                            new_description
                        } else {
                            s.description
                        },
                        ..s
                    }),
                ),
                InstructMacroResult::Enum(e) => InstructMacroResult::Enum(
                    (EnumInfo {
                        description: if new_description@.len() > 0 {
                            new_description
                        } else {
                            e.description
                        },
                        ..e
                    }),
                ),
            },
    {
        match self {
            InstructMacroResult::Struct(struct_info) => {
                InstructMacroResult::Struct(struct_info.override_description(new_description))
            },
            InstructMacroResult::Enum(enum_info) => {
                InstructMacroResult::Enum(enum_info.override_description(new_description))
            },
        }
    }

    /// Sets the optional modifier.
    pub fn set_optional(self, is_optional: bool) -> (r: InstructMacroResult)
        ensures
            r == match self {
                InstructMacroResult::Struct(s) => InstructMacroResult::Struct(
                    (StructInfo { is_optional, ..s }),
                ),
                InstructMacroResult::Enum(e) => InstructMacroResult::Enum(
                    (EnumInfo { is_optional, ..e }),
                ),
            },
    {
        match self {
            InstructMacroResult::Struct(struct_info) => {
                InstructMacroResult::Struct(struct_info.set_optional(is_optional))
            },
            InstructMacroResult::Enum(enum_info) => {
                InstructMacroResult::Enum(enum_info.set_optional(is_optional))
            },
        }
    }

    /// Sets the list modifier.
    pub fn set_list(self, is_list: bool) -> (r: InstructMacroResult)
        ensures
            r == match self {
                InstructMacroResult::Struct(s) => InstructMacroResult::Struct(
                    (StructInfo { is_list, ..s }),
                ),
                InstructMacroResult::Enum(e) => InstructMacroResult::Enum(
                    (EnumInfo { is_list, ..e }),
                ),
            },
    {
        match self {
            InstructMacroResult::Struct(struct_info) => {
                InstructMacroResult::Struct(struct_info.set_list(is_list))
            },
            InstructMacroResult::Enum(enum_info) => {
                InstructMacroResult::Enum(enum_info.set_list(is_list))
            },
        }
    }
}

} // verus!
