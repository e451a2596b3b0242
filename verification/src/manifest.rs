//! The parsed manifest of a C header file: the types, functions and
//! properties a binding generator renders, and the grammar fragments the
//! parser hands over.

use vstd::prelude::*;

verus! {

/// Failure codes of manifest extraction.
#[derive(Clone, Copy, Debug, PartialEq, Eq, Structural)]
pub enum Error {
    /// An import line could not be interpreted.
    BadImport,
    /// A struct or enum declaration could not be interpreted.
    BadObject,
    /// A property declaration could not be interpreted.
    BadProperty,
    /// A type expression could not be interpreted.
    BadType,
}

/// The C scalar types the parser recognises directly.
#[derive(Clone, Copy, Debug, PartialEq, Eq, Structural)]
pub enum GPrimitive {
    /// `void`.
    Void,
    /// `bool`.
    Bool,
    /// `char`.
    Char,
    /// `int`.
    Int,
    /// `unsigned int`.
    UnsignedInt,
    /// `size_t`.
    SizeT,
}

/// A raw keyword the parser could not classify.
#[derive(Clone, Debug, PartialEq, Eq)]
pub struct GKeyword(pub String);

/// The category of a parsed C type expression.
#[derive(Debug, PartialEq, Eq)]
pub enum GTypeCategory {
    /// A recognised scalar type.
    Scalar(GPrimitive),
    /// A pointer to another category.
    Pointer(Box<GTypeCategory>),
    /// A keyword the parser did not recognise; usually a project-defined
    /// struct or enum name.
    Unrecognized(GKeyword),
}

/// A parsed C type expression with its qualifier.
#[derive(Debug, PartialEq, Eq)]
pub enum GType {
    /// An unqualified type.
    Mutable(GTypeCategory),
    /// A `const`-qualified type.
    Const(GTypeCategory),
    /// A type in an `"C"`-linkage declaration.
    External(GTypeCategory),
}

/// The name of the custom (project-defined) type a parsed type expression
/// refers to, if it refers to one: the keyword of an unrecognised
/// category, whatever the qualifier.
pub open spec fn extract_custom_spec(ty: GType) -> Option<String> {
    match ty {
        GType::Mutable(category) | GType::Const(category) | GType::External(category) => {
            match category {
                GTypeCategory::Unrecognized(keyword) => Some(keyword.0),
                _ => None,
            }
        },
    }
}

/// Returns the name of the custom type `ty` refers to, if any.
pub fn extract_custom(ty: &GType) -> (r: Option<String>)
    ensures
        r == extract_custom_spec(*ty),
{
    match ty {
        GType::Mutable(category) | GType::Const(category) | GType::External(category) => {
            if let GTypeCategory::Unrecognized(keyword) = category {
                Some(keyword.0.clone())
            } else {
                None
            }
        },
    }
}

/// A rendered variant kind with its flags and tags.
#[derive(Clone, Debug, PartialEq, Eq)]
pub struct TypeInfo {
    /// The kind of the type.
    pub variant: TypeVariant,
    /// Whether the declaration is `const`-qualified.
    pub is_constant: bool,
    /// Whether the value may be absent.
    pub is_nullable: bool,
    /// Whether the declaration is a pointer.
    pub is_pointer: bool,
    /// Marker tags collected from the declaration.
    pub tags: Vec<String>,
}

/// The closed set of type kinds a binding can carry.
#[derive(Clone, Debug, PartialEq, Eq)]
pub enum TypeVariant {
    /// `void`.
    Void,
    /// `bool`.
    Bool,
    /// `char`.
    Char,
    /// `short int`.
    ShortInt,
    /// `int`.
    Int,
    /// `unsigned int`.
    UnsignedInt,
    /// `long int`.
    LongInt,
    /// `float`.
    Float,
    /// `double`.
    Double,
    /// `size_t`.
    SizeT,
    /// `int8_t`.
    Int8T,
    /// `int16_t`.
    Int16T,
    /// `int32_t`.
    Int32T,
    /// `int64_t`.
    Int64T,
    /// `uint8_t`.
    UInt8T,
    /// `uint16_t`.
    UInt16T,
    /// `uint32_t`.
    UInt32T,
    /// `uint64_t`.
    UInt64T,
    /// A project-defined struct, by name.
    Struct(String),
    /// A project-defined enum, by name.
    Enum(String),
}

/// Everything extracted from one header file.
#[derive(Clone, Debug)]
pub struct FileInfo {
    /// The file name without its extension.
    pub name: String,
    /// The imports of the header.
    pub imports: Vec<ImportInfo>,
    /// The structs declared in the header.
    pub structs: Vec<StructInfo>,
    /// The constructors declared in the header.
    pub inits: Vec<InitInfo>,
    /// The destructors declared in the header.
    pub deinits: Vec<DeinitInfo>,
    /// The enums declared in the header.
    pub enums: Vec<EnumInfo>,
    /// The exported methods declared in the header.
    pub functions: Vec<FunctionInfo>,
    /// The exported properties declared in the header.
    pub properties: Vec<PropertyInfo>,
}

/// One import, expressed as directories plus the final file.
#[derive(Clone, Debug)]
pub struct ImportInfo {
    /// The path components, such as `["to", "some", "file.h"]`.
    pub path: Vec<String>,
}

/// One enum declaration.
#[derive(Clone, Debug)]
pub struct EnumInfo {
    /// The enum's name.
    pub name: String,
    /// Whether the enum is exported.
    pub is_public: bool,
    /// Each variant's name and optional explicit value.
    pub variants: Vec<(String, Option<usize>)>,
    /// Marker tags collected from the declaration.
    pub tags: Vec<String>,
}

/// One struct declaration.
#[derive(Clone, Debug)]
pub struct StructInfo {
    /// The struct's name.
    pub name: String,
    /// Whether the struct is exported.
    pub is_public: bool,
    /// Each field's name and type.
    pub fields: Vec<(String, TypeInfo)>,
    /// Marker tags collected from the declaration.
    pub tags: Vec<String>,
}

/// One constructor declaration.
#[derive(Clone, Debug)]
pub struct InitInfo {
    /// The constructor's exported name.
    pub name: String,
    /// Whether the constructor is exported.
    pub is_public: bool,
    /// The constructor's parameters.
    pub params: Vec<ParamInfo>,
    /// The comment lines above the declaration.
    pub comments: Vec<String>,
}

/// One destructor declaration.
#[derive(Clone, Debug)]
pub struct DeinitInfo {
    /// The destructor's exported name.
    pub name: String,
    /// The destructor's parameters.
    pub params: Vec<ParamInfo>,
    /// The comment lines above the declaration.
    pub comments: Vec<String>,
}

/// One exported method declaration.
#[derive(Clone, Debug)]
pub struct FunctionInfo {
    /// The method's exported name.
    pub name: String,
    /// Whether the method is exported.
    pub is_public: bool,
    /// Whether the method is static.
    pub is_static: bool,
    /// The method's parameters.
    pub params: Vec<ParamInfo>,
    /// The method's return type.
    pub return_type: TypeInfo,
    /// The comment lines above the declaration.
    pub comments: Vec<String>,
}

/// One exported property declaration.
#[derive(Clone, Debug)]
pub struct PropertyInfo {
    /// The property's exported name.
    pub name: String,
    /// Whether the property is exported.
    pub is_public: bool,
    /// Whether the property is static.
    pub is_static: bool,
    /// The property's type.
    pub return_type: TypeInfo,
    /// The comment lines above the declaration.
    pub comments: Vec<String>,
}

/// One parameter of a method, constructor or destructor.
#[derive(Clone, Debug)]
pub struct ParamInfo {
    /// The parameter's name.
    pub name: String,
    /// The parameter's type.
    pub ty: TypeInfo,
}

} // verus!
